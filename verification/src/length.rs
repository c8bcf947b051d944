use vstd::prelude::*;
use wassily::prelude::{Rng, SmallRng};

verus! {

#[verifier::external_type_specification]
#[verifier::external_body]
pub struct ExSmallRng(SmallRng);

/// Calls `Rng::gen_range` of rand with the range `0..n`, which panics on an
/// empty range and else draws a number of the range: at least 0 and less
/// than `n`. Which one is drawn depends on the generator, so no more is
/// stated.
#[verifier::external_body]
fn below(rng: &mut SmallRng, n: u8) -> (index: u8)
    requires
        n > 0,
    ensures
        index < n,
{
    rng.gen_range(0..n)
}

/// The axes along which the distance from the canvas centre is taken.
#[derive(Clone, Copy, Debug, PartialEq, Eq, Hash, Structural)]
pub enum Dir {
    Both,
    Horizontal,
    Vertical,
}

impl Dir {
    /// The name shown for the direction.
    pub open spec fn label(self) -> Seq<char> {
        match self {
            Dir::Both => "Both"@,
            Dir::Horizontal => "Horizontal"@,
            Dir::Vertical => "Vertical"@,
        }
    }

    pub fn to_string(&self) -> (s: String)
        ensures
            s@ == self.label(),
    {
        match self {
            Dir::Both => "Both".to_owned(),
            Dir::Horizontal => "Horizontal".to_owned(),
            Dir::Vertical => "Vertical".to_owned(),
        }
    }

    /// The direction that stands at `index` among the three.
    pub open spec fn at(index: u8) -> Dir {
        if index == 0 {
            Dir::Both
        } else if index == 1 {
            Dir::Horizontal
        } else {
            Dir::Vertical
        }
    }

    pub fn from_index(index: u8) -> (d: Dir)
        requires
            index < 3,
        ensures
            d == Dir::at(index),
    {
        if index == 0 {
            Dir::Both
        } else if index == 1 {
            Dir::Horizontal
        } else {
            Dir::Vertical
        }
    }

    /// Draws a direction: the one at an index that `rng` picks below 3.
    pub fn sample(rng: &mut SmallRng) -> (d: Dir)
        ensures
            exists|index: u8| index < 3 && d == Dir::at(index),
    {
        let index: u8 = below(rng, 3);
        Dir::from_index(index)
    }
}

/// The rules by which the width of an extruded stroke follows its position.
#[derive(Clone, Copy, Debug, PartialEq, Eq, Hash, Structural)]
pub enum ExtrusionStyle {
    Expanding,
    Contracting,
    Constant,
    Varying,
    Noisy,
}

impl ExtrusionStyle {
    /// The name shown for the rule.
    pub open spec fn label(self) -> Seq<char> {
        match self {
            ExtrusionStyle::Constant => "Constant"@,
            ExtrusionStyle::Expanding => "Expanding"@,
            ExtrusionStyle::Contracting => "Contracting"@,
            ExtrusionStyle::Varying => "Varying"@,
            ExtrusionStyle::Noisy => "Noisy"@,
        }
    }

    pub fn to_string(&self) -> (s: String)
        ensures
            s@ == self.label(),
    {
        match self {
            ExtrusionStyle::Constant => "Constant".to_owned(),
            ExtrusionStyle::Expanding => "Expanding".to_owned(),
            ExtrusionStyle::Contracting => "Contracting".to_owned(),
            ExtrusionStyle::Varying => "Varying".to_owned(),
            ExtrusionStyle::Noisy => "Noisy".to_owned(),
        }
    }

    /// The rule that stands at `index` among the five.
    pub open spec fn at(index: u8) -> ExtrusionStyle {
        if index == 0 {
            ExtrusionStyle::Constant
        } else if index == 1 {
            ExtrusionStyle::Expanding
        } else if index == 2 {
            ExtrusionStyle::Contracting
        } else if index == 3 {
            ExtrusionStyle::Varying
        } else {
            ExtrusionStyle::Noisy
        }
    }

    pub fn from_index(index: u8) -> (style: ExtrusionStyle)
        requires
            index < 5,
        ensures
            style == ExtrusionStyle::at(index),
    {
        if index == 0 {
            ExtrusionStyle::Constant
        } else if index == 1 {
            ExtrusionStyle::Expanding
        } else if index == 2 {
            ExtrusionStyle::Contracting
        } else if index == 3 {
            ExtrusionStyle::Varying
        } else {
            ExtrusionStyle::Noisy
        }
    }

    /// Draws a rule: the one at an index that `rng` picks below 5.
    pub fn sample(rng: &mut SmallRng) -> (style: ExtrusionStyle)
        ensures
            exists|index: u8| index < 5 && style == ExtrusionStyle::at(index),
    {
        let index: u8 = below(rng, 5);
        ExtrusionStyle::from_index(index)
    }
}

} // verus!
