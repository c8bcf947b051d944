use vstd::prelude::*;

verus! {

/// The kinds of flow field.
#[derive(Clone, Copy, Debug, PartialEq, Eq, Hash, Structural)]
pub enum NoiseFunction {
    Fbm,
    Billow,
    Ridged,
    Value,
    Cylinders,
    Worley,
    Curl,
    Magnet,
    Gravity,
    Sinusoidal,
}

impl NoiseFunction {
    /// The name shown for the kind.
    pub open spec fn label(self) -> Seq<char> {
        match self {
            NoiseFunction::Fbm => "Fbm"@,
            NoiseFunction::Billow => "Billow"@,
            NoiseFunction::Ridged => "Ridged"@,
            NoiseFunction::Cylinders => "Cylinders"@,
            NoiseFunction::Value => "Value"@,
            NoiseFunction::Worley => "Worley"@,
            NoiseFunction::Curl => "Curl"@,
            NoiseFunction::Magnet => "Magnet"@,
            NoiseFunction::Gravity => "Gravity"@,
            NoiseFunction::Sinusoidal => "Sinusoidal"@,
        }
    }

    pub fn to_string(&self) -> (s: String)
        ensures
            s@ == self.label(),
    {
        match self {
            NoiseFunction::Fbm => "Fbm".to_owned(),
            NoiseFunction::Billow => "Billow".to_owned(),
            NoiseFunction::Ridged => "Ridged".to_owned(),
            NoiseFunction::Cylinders => "Cylinders".to_owned(),
            NoiseFunction::Value => "Value".to_owned(),
            NoiseFunction::Worley => "Worley".to_owned(),
            NoiseFunction::Curl => "Curl".to_owned(),
            NoiseFunction::Magnet => "Magnet".to_owned(),
            NoiseFunction::Gravity => "Gravity".to_owned(),
            NoiseFunction::Sinusoidal => "Sinusoidal".to_owned(),
        }
    }

    /// Whether the kind is built from octaves, so that the octave count,
    /// persistence, lacunarity and frequency shape it.
    pub open spec fn fractal(self) -> bool {
        self == NoiseFunction::Fbm || self == NoiseFunction::Billow || self
            == NoiseFunction::Ridged || self == NoiseFunction::Curl
    }

    pub fn is_fractal(&self) -> (b: bool)
        ensures
            b == self.fractal(),
    {
        match self {
            NoiseFunction::Fbm | NoiseFunction::Billow | NoiseFunction::Ridged
            | NoiseFunction::Curl => true,
            _ => false,
        }
    }

    /// Whether positions are scaled to the canvas, and values by the factor,
    /// before the field is asked: so for every kind but the attractor fields,
    /// whose sinks stand at canvas positions.
    pub open spec fn scaled(self) -> bool {
        self != NoiseFunction::Magnet && self != NoiseFunction::Gravity
    }

    pub fn is_scaled(&self) -> (b: bool)
        ensures
            b == self.scaled(),
    {
        match self {
            NoiseFunction::Magnet | NoiseFunction::Gravity => false,
            _ => true,
        }
    }
}

/// The choice of flow field with the factor and scale applied to it.
#[derive(Debug, Clone, Copy, PartialEq)]
pub struct NoiseControls<S> {
    pub noise_function: Option<NoiseFunction>,
    pub noise_factor: S,
    pub noise_scale: S,
}

impl<S> NoiseControls<S> {
    pub fn new(noise_function: NoiseFunction, noise_scale: S, noise_factor: S) -> (c: Self)
        ensures
            c.noise_function == Some(noise_function),
            c.noise_scale == noise_scale,
            c.noise_factor == noise_factor,
    {
        Self { noise_function: Some(noise_function), noise_factor, noise_scale }
    }

    pub fn set_noise_function(self, noise_function: NoiseFunction) -> (c: Self)
        ensures
            c.noise_function == Some(noise_function),
            c.noise_scale == self.noise_scale,
            c.noise_factor == self.noise_factor,
    {
        let mut c = self;
        c.noise_function = Some(noise_function);
        c
    }

    pub fn set_noise_factor(self, noise_factor: S) -> (c: Self)
        ensures
            c.noise_function == self.noise_function,
            c.noise_scale == self.noise_scale,
            c.noise_factor == noise_factor,
    {
        let mut c = self;
        c.noise_factor = noise_factor;
        c
    }

    pub fn set_noise_scale(self, noise_scale: S) -> (c: Self)
        ensures
            c.noise_function == self.noise_function,
            c.noise_scale == noise_scale,
            c.noise_factor == self.noise_factor,
    {
        let mut c = self;
        c.noise_scale = noise_scale;
        c
    }
}

/// `i` is the first position of the smallest of `keys`, and that key is
/// below `limit`.
pub open spec fn first_least(keys: Seq<u64>, limit: u64, i: int) -> bool {
    &&& 0 <= i < keys.len()
    &&& keys[i] < limit
    &&& forall|j: int| 0 <= j < i ==> keys[i] < #[trigger] keys[j]
    &&& forall|j: int| i <= j < keys.len() ==> keys[i] <= #[trigger] keys[j]
}

/// An attractor field: a fixed set of sinks, each position drawn to the
/// nearest of them.
pub struct Magnet<P> {
    sinks: Vec<P>,
}

impl<P: Copy> Magnet<P> {
    /// The sinks, in the order in which they were given.
    pub closed spec fn view(&self) -> Seq<P> {
        self.sinks@
    }

    pub fn new(sinks: Vec<P>) -> (m: Self)
        ensures
            m@ == sinks@,
    {
        Self { sinks }
    }

    /// `keys` holds one distance for each sink, as `distance` gives it.
    pub open spec fn measured<D: Fn(P) -> u64>(&self, distance: D, keys: Seq<u64>) -> bool {
        &&& keys.len() == self@.len()
        &&& forall|i: int|
            0 <= i < keys.len() ==> call_ensures(distance, (self@[i],), #[trigger] keys[i])
    }

    /// The sink nearest by `distance`, among those nearer than `limit`; of
    /// several at the same smallest distance the first. `None` where no sink
    /// is nearer than `limit`, as when there is no sink at all.
    ///
    /// A distance is an unsigned key that grows with it.
    pub fn nearest<D: Fn(P) -> u64>(&self, distance: D, limit: u64) -> (sink: Option<P>)
        requires
            forall|p: P| call_requires(distance, (p,)),
        ensures
            exists|keys: Seq<u64>|
                {
                    &&& self.measured(distance, keys)
                    &&& match sink {
                        Some(p) => exists|i: int|
                            first_least(keys, limit, i) && p == self@[i],
                        None => forall|j: int|
                            0 <= j < keys.len() ==> #[trigger] keys[j] >= limit,
                    }
                },
            self@.len() == 0 ==> sink.is_none(),
    {
        let mut found: Option<P> = None;
        let mut least: u64 = limit;
        let ghost mut keys: Seq<u64> = Seq::empty();
        let ghost mut at: int = 0;
        let mut k: usize = 0;
        while k < self.sinks.len()
            invariant
                forall|p: P| call_requires(distance, (p,)),
                k <= self.sinks@.len(),
                keys.len() == k,
                forall|i: int|
                    0 <= i < k ==> call_ensures(distance, (self.sinks@[i],), #[trigger] keys[i]),
                least <= limit,
                match found {
                    Some(p) => first_least(keys, limit, at) && p == self.sinks@[at] && least
                        == keys[at],
                    None => least == limit && forall|j: int|
                        0 <= j < k ==> #[trigger] keys[j] >= limit,
                },
            decreases self.sinks@.len() - k,
        {
            let s = self.sinks[k];
            let d = distance(s);
            proof {
                keys = keys.push(d);
            }
            if d < least {
                least = d;
                found = Some(s);
                proof {
                    at = k as int;
                }
            }
            k += 1;
        }
        assert(self.measured(distance, keys));
        found
    }
}

/// The parameters of a sinusoidal field: a frequency and an exponent for
/// each axis.
#[derive(Debug, Clone, Copy, PartialEq)]
pub struct Sinusoidal<S> {
    pub x_freq: S,
    pub y_freq: S,
    pub x_exp: S,
    pub y_exp: S,
}

impl<S> Sinusoidal<S> {
    pub fn new(x_freq: S, y_freq: S, x_exp: S, y_exp: S) -> (s: Self)
        ensures
            s == (Sinusoidal { x_freq, y_freq, x_exp, y_exp }),
    {
        Self { x_freq, y_freq, x_exp, y_exp }
    }
}

} // verus!
