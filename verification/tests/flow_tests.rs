use k2::field::{Field, Point as Spot, Vertex};
use k2::location::grid;
use k2::noise::NoiseFunction;
use wassily::prelude::{
    halton_23, noise2d, pt, Algebra, Billow, Curl, Cylinders, Fbm, MultiFractal, NoiseFn,
    NoiseOpts, Perlin, Point, ReturnType, RidgedMulti, Rng, SeedableRng, SmallRng,
    TranslatePoint, Value, Worley, PI,
};

struct Magnet(k2::noise::Magnet<Point>);

impl NoiseFn<f64, 2> for Magnet {
    fn get(&self, point: [f64; 2]) -> f64 {
        let distance = |s: Point| (pt(point[0], point[1]).dist2(pt(s.x, s.y)) as f64).to_bits();
        match self.0.nearest(distance, f64::MAX.to_bits()) {
            None => 0.0,
            Some(p) => (p.y as f64 - point[1]).atan2(p.x as f64 - point[0]) / std::f64::consts::PI,
        }
    }
}

struct Sinusoidal(k2::noise::Sinusoidal<f64>);

impl NoiseFn<f64, 2> for Sinusoidal {
    fn get(&self, point: [f64; 2]) -> f64 {
        std::f64::consts::PI
            * (2.0
                + (self.0.x_freq * point[0]).sin().powf(self.0.x_exp)
                + (self.0.y_freq * point[1]).sin().powf(self.0.y_exp))
    }
}

fn sinks(w: u32, h: u32) -> Vec<Point> {
    let w = w as f32;
    let h = h as f32;
    vec![
        pt(0.25 * w, 0.25 * h),
        pt(0.25 * w, 0.75 * h),
        pt(0.75 * w, 0.25 * h),
        pt(0.75 * w, 0.75 * h),
    ]
}

fn source(kind: NoiseFunction, w: u32, h: u32) -> (Box<dyn NoiseFn<f64, 2>>, NoiseOpts) {
    let scaled = NoiseOpts::with_wh(w, h).scales(4.0).factor(1.0);
    match kind {
        NoiseFunction::Fbm => (
            Box::new(
                Fbm::<Perlin>::default()
                    .set_octaves(4)
                    .set_persistence(0.5)
                    .set_lacunarity(2.0)
                    .set_frequency(1.0),
            ),
            scaled,
        ),
        NoiseFunction::Billow => (
            Box::new(Billow::<Perlin>::default().set_octaves(4).set_persistence(0.5)),
            scaled,
        ),
        NoiseFunction::Ridged => (
            Box::new(RidgedMulti::<Perlin>::default().set_octaves(2).set_frequency(1.0)),
            scaled,
        ),
        NoiseFunction::Value => (Box::<Value>::default(), scaled),
        NoiseFunction::Worley => (
            Box::new(Worley::default().set_return_type(ReturnType::Distance)),
            scaled,
        ),
        NoiseFunction::Cylinders => (
            Box::new(
                TranslatePoint::new(Cylinders::default().set_frequency(2.0))
                    .set_x_translation(w as f64 / 2.0)
                    .set_y_translation(h as f64 / 2.0),
            ),
            scaled,
        ),
        NoiseFunction::Curl => (
            Box::new(Curl::new(Fbm::<Perlin>::default().set_octaves(4))),
            scaled,
        ),
        NoiseFunction::Magnet => {
            (Box::new(Magnet(k2::noise::Magnet::new(sinks(w, h)))), NoiseOpts::default())
        }
        NoiseFunction::Gravity => (
            Box::new(Curl::new(Magnet(k2::noise::Magnet::new(sinks(w, h))))),
            NoiseOpts::default(),
        ),
        NoiseFunction::Sinusoidal => (
            Box::new(Sinusoidal(k2::noise::Sinusoidal::new(1.0, 1.0, 2.0, 2.0))),
            scaled,
        ),
    }
}

fn advance(v: Vertex<f32>, step_size: f32, reversed: bool) -> Spot<f32> {
    let theta = if reversed { PI + v.theta } else { v.theta };
    Spot { x: v.x + step_size * theta.cos(), y: v.y + step_size * theta.sin() }
}

fn blend(speed: f32, theta: f32, sampled: f32) -> f32 {
    (1.0 - speed) * theta + speed * sampled
}

type Flow = Field<
    f32,
    Box<dyn Fn(f32, f32) -> f32>,
    fn(Vertex<f32>, f32, bool) -> Spot<f32>,
    fn(f32, f32, f32) -> f32,
>;

fn flow(kind: NoiseFunction, curve_length: u32, speed: f32) -> Flow {
    let (nf, opts) = source(kind, 1000, 1000);
    Field {
        noise_function: Box::new(move |x, y| noise2d(&nf, &opts, x, y) * PI),
        advance,
        blend,
        step_size: 4.0,
        width: 1000,
        height: 1000,
        curve_length,
        speed,
    }
}

const KINDS: [NoiseFunction; 10] = [
    NoiseFunction::Fbm,
    NoiseFunction::Billow,
    NoiseFunction::Ridged,
    NoiseFunction::Value,
    NoiseFunction::Cylinders,
    NoiseFunction::Worley,
    NoiseFunction::Curl,
    NoiseFunction::Magnet,
    NoiseFunction::Gravity,
    NoiseFunction::Sinusoidal,
];

fn steps(limit: f32, sep: f32) -> Vec<f32> {
    let mut at = Vec::new();
    let mut i = 0.0;
    while i <= limit {
        at.push(i);
        i += sep;
    }
    at
}

#[test]
fn every_field_gives_finite_angles() {
    for kind in KINDS {
        let (nf, opts) = source(kind, 1000, 1000);
        for i in 0..=20 {
            for j in 0..=20 {
                let angle = noise2d(&nf, &opts, i as f32 * 50.0, j as f32 * 50.0);
                assert!(angle.is_finite());
            }
        }
    }
}

#[test]
fn direction_fields_stay_within_one_turn() {
    for kind in [NoiseFunction::Curl, NoiseFunction::Magnet, NoiseFunction::Gravity] {
        let (nf, opts) = source(kind, 1000, 1000);
        for i in 0..=40 {
            for j in 0..=40 {
                let angle = noise2d(&nf, &opts, i as f32 * 25.0 + 0.5, j as f32 * 25.0 + 0.25);
                assert!((-1.0..=1.0).contains(&angle));
            }
        }
    }
}

#[test]
fn magnet_without_sinks_is_zero_everywhere() {
    let magnet = Magnet(k2::noise::Magnet::new(Vec::new()));
    for p in [[0.0, 0.0], [1.0, -1.0], [500.0, 250.0], [-1e9, 1e9], [1e300, 1e300]] {
        assert_eq!(magnet.get(p), 0.0);
    }
}

#[test]
fn magnet_points_to_the_nearest_sink() {
    let magnet = Magnet(k2::noise::Magnet::new(sinks(1000, 1000)));
    assert!((magnet.get([0.0, 0.0]) - 0.25).abs() < 1e-12);
    assert!((magnet.get([1000.0, 1000.0]) + 0.75).abs() < 1e-12);
    assert!((magnet.get([0.0, 1000.0]) + 0.25).abs() < 1e-12);
    assert!((magnet.get([1000.0, 0.0]) - 0.75).abs() < 1e-12);
    assert!((magnet.get([250.0, 0.0]) - 0.5).abs() < 1e-12);
    assert_eq!(magnet.get([250.0, 250.0]), 0.0);
}

#[test]
fn sinusoidal_matches_its_closed_form() {
    let field = Sinusoidal(k2::noise::Sinusoidal::new(2.0, 3.0, 1.0, 3.0));
    let pi = std::f64::consts::PI;
    for (x, y) in [(0.0f64, 0.0f64), (0.1, 0.2), (1.0, 2.0), (-3.5, 7.25), (100.0, -40.0)] {
        let expected = pi * (2.0 + (2.0 * x).sin() + (3.0 * y).sin().powi(3));
        assert!((field.get([x, y]) - expected).abs() < 1e-9);
    }
    let squares = Sinusoidal(k2::noise::Sinusoidal::new(1.0, 1.0, 2.0, 2.0));
    assert!((squares.get([0.0, 0.0]) - 2.0 * pi).abs() < 1e-12);
    assert!((squares.get([pi / 2.0, pi / 2.0]) - 4.0 * pi).abs() < 1e-9);
    assert!(squares.get([12.5, -3.0]) >= 2.0 * pi);
}

#[test]
fn curves_through_every_field_have_their_length() {
    for kind in KINDS {
        let field = flow(kind, 30, 0.5);
        let one = field.curve1(400.0, 600.0);
        assert_eq!(one.len(), 31);
        assert_eq!(one[0], Spot { x: 400.0, y: 600.0 });
        assert!(one.iter().all(|p| p.x.is_finite() && p.y.is_finite()));
        let two = field.curve2(400.0, 600.0);
        assert_eq!(two.len(), 31);
        assert_eq!(two[15], Spot { x: 400.0, y: 600.0 });
        assert!(two.contains(&Spot { x: 400.0, y: 600.0 }));
    }
}

#[test]
fn tracing_repeats_for_every_field() {
    for kind in KINDS {
        let first = flow(kind, 25, 0.8);
        let again = flow(kind, 25, 0.8);
        let a = first.curve1(123.0, 456.0);
        assert_eq!(a, first.curve1(123.0, 456.0));
        assert_eq!(a, again.curve1(123.0, 456.0));
        assert_eq!(first.curve2(123.0, 456.0), again.curve2(123.0, 456.0));
    }
}

#[test]
fn each_step_has_the_step_size() {
    let field = flow(NoiseFunction::Fbm, 40, 1.0);
    let curve = field.curve1(500.0, 500.0);
    for pair in curve.windows(2) {
        let d = ((pair[1].x - pair[0].x).powi(2) + (pair[1].y - pair[0].y).powi(2)).sqrt();
        assert!((d - 4.0).abs() < 1e-3);
    }
}

#[test]
fn grid_of_a_thousand_by_a_thousand_canvas() {
    let columns = steps(1000.0, 50.0);
    let rows = steps(1000.0, 50.0);
    assert_eq!(columns.len(), 21);
    let points = grid(&columns, &rows);
    assert_eq!(points.len(), 441);
    assert_eq!(points[0], Spot { x: 0.0, y: 0.0 });
    assert_eq!(points[1], Spot { x: 0.0, y: 50.0 });
    assert_eq!(points[20], Spot { x: 0.0, y: 1000.0 });
    assert_eq!(points[21], Spot { x: 50.0, y: 0.0 });
    assert_eq!(points[440], Spot { x: 1000.0, y: 1000.0 });
}

#[test]
fn grid_pairs_every_column_with_every_row() {
    let points = grid(&vec![1u8, 2, 3], &vec![10u8, 20]);
    assert_eq!(
        points,
        vec![
            Spot { x: 1, y: 10 },
            Spot { x: 1, y: 20 },
            Spot { x: 2, y: 10 },
            Spot { x: 2, y: 20 },
            Spot { x: 3, y: 10 },
            Spot { x: 3, y: 20 },
        ]
    );
    assert_eq!(grid(&Vec::<u8>::new(), &vec![1u8, 2]).len(), 0);
    assert_eq!(grid(&vec![1u8, 2], &Vec::<u8>::new()).len(), 0);
}

#[test]
fn scattered_starts_count_area_over_spacing_squared() {
    let (w, h, sep) = (1000.0f32, 1000.0f32, 50.0f32);
    let n = ((w * h) / (sep * sep)) as u32;
    assert_eq!(n, 400);
    let points = halton_23(w, h, n, k2::common::SEED);
    assert_eq!(points.len(), 400);
    assert!(points.iter().all(|p| (0.0..=w).contains(&p.x) && (0.0..=h).contains(&p.y)));
    let mut rng = SmallRng::seed_from_u64(k2::common::SEED);
    let scattered: Vec<Point> =
        (0..n).map(|_| pt(rng.gen_range(0.0..w), rng.gen_range(0.0..h))).collect();
    assert_eq!(scattered.len(), 400);
    assert!(scattered.iter().all(|p| (0.0..w).contains(&p.x) && (0.0..h).contains(&p.y)));
}
