use vstd::prelude::*;

verus! {

/// A change to the fractal controls.
#[derive(Debug, Clone)]
pub enum FractalMessage<S> {
    Octaves(u8),
    Persistence(S),
    Lacunarity(S),
    Frequency(S),
}

/// The settings of the fields built from octaves.
#[derive(Debug, Clone, Copy, PartialEq)]
pub struct FractalControls<S> {
    pub octaves: u8,
    pub persistence: S,
    pub lacunarity: S,
    pub frequency: S,
}

impl<S> FractalControls<S> {
    pub fn new(octaves: u8, persistence: S, lacunarity: S, frequency: S) -> (c: Self)
        ensures
            c == (FractalControls { octaves, persistence, lacunarity, frequency }),
    {
        Self { octaves, persistence, lacunarity, frequency }
    }

    pub fn set_octaves(self, octaves: u8) -> (c: Self)
        ensures
            c == (FractalControls { octaves, ..self }),
    {
        let mut c = self;
        c.octaves = octaves;
        c
    }

    pub fn set_persistence(self, persistence: S) -> (c: Self)
        ensures
            c == (FractalControls { persistence, ..self }),
    {
        let mut c = self;
        c.persistence = persistence;
        c
    }

    pub fn set_lacunarity(self, lacunarity: S) -> (c: Self)
        ensures
            c == (FractalControls { lacunarity, ..self }),
    {
        let mut c = self;
        c.lacunarity = lacunarity;
        c
    }

    pub fn set_frequency(self, frequency: S) -> (c: Self)
        ensures
            c == (FractalControls { frequency, ..self }),
    {
        let mut c = self;
        c.frequency = frequency;
        c
    }

    /// Whether persistence, lacunarity and frequency shape the field: they do
    /// once there is more than one octave.
    pub open spec fn layered(self) -> bool {
        self.octaves > 1
    }

    pub fn is_layered(&self) -> (b: bool)
        ensures
            b == self.layered(),
    {
        self.octaves > 1
    }

    /// The controls after `message`.
    pub open spec fn updated(self, message: FractalMessage<S>) -> Self {
        match message {
            FractalMessage::Octaves(octaves) => FractalControls { octaves, ..self },
            FractalMessage::Persistence(persistence) => FractalControls { persistence, ..self },
            FractalMessage::Lacunarity(lacunarity) => FractalControls { lacunarity, ..self },
            FractalMessage::Frequency(frequency) => FractalControls { frequency, ..self },
        }
    }

    pub fn update(&mut self, message: FractalMessage<S>)
        ensures
            *final(self) == old(self).updated(message),
    {
        match message {
            FractalMessage::Octaves(octaves) => {
                self.octaves = octaves;
            },
            FractalMessage::Persistence(persistence) => {
                self.persistence = persistence;
            },
            FractalMessage::Lacunarity(lacunarity) => {
                self.lacunarity = lacunarity;
            },
            FractalMessage::Frequency(frequency) => {
                self.frequency = frequency;
            },
        }
    }
}

} // verus!
