use k2::noise::{Magnet, NoiseControls, NoiseFunction, Sinusoidal};

fn squared_distance(from: (f32, f32), to: (f32, f32)) -> u64 {
    let dx = from.0 - to.0;
    let dy = from.1 - to.1;
    ((dx * dx + dy * dy) as f64).to_bits()
}

fn limit() -> u64 {
    f64::MAX.to_bits()
}

#[test]
fn magnet_without_sinks_has_no_nearest() {
    let magnet: Magnet<(f32, f32)> = Magnet::new(Vec::new());
    assert_eq!(magnet.nearest(|s| squared_distance((3.0, 4.0), s), limit()), None);
    assert_eq!(magnet.nearest(|_| 0, limit()), None);
}

#[test]
fn magnet_finds_the_nearest_sink() {
    let sinks = vec![(250.0f32, 250.0f32), (250.0, 750.0), (750.0, 250.0), (750.0, 750.0)];
    let magnet = Magnet::new(sinks);
    let at = |p: (f32, f32)| magnet.nearest(|s| squared_distance(p, s), limit());
    assert_eq!(at((10.0, 10.0)), Some((250.0, 250.0)));
    assert_eq!(at((10.0, 990.0)), Some((250.0, 750.0)));
    assert_eq!(at((990.0, 10.0)), Some((750.0, 250.0)));
    assert_eq!(at((990.0, 990.0)), Some((750.0, 750.0)));
    assert_eq!(at((750.0, 750.0)), Some((750.0, 750.0)));
}

#[test]
fn magnet_takes_the_first_of_equally_near_sinks() {
    let magnet = Magnet::new(vec![(0.0f32, 10.0f32), (10.0, 0.0), (0.0, -10.0)]);
    assert_eq!(magnet.nearest(|s| squared_distance((0.0, 0.0), s), limit()), Some((0.0, 10.0)));
    let keyed = Magnet::new(vec![7u8, 3, 9, 3, 5]);
    let keys = [40u64, 20, 30, 20, 25];
    assert_eq!(keyed.nearest(|s| u64::from(s), 100), Some(3));
    let indexed = Magnet::new(vec![0usize, 1, 2, 3, 4]);
    assert_eq!(indexed.nearest(|i| keys[i], 100), Some(1));
}

#[test]
fn magnet_ignores_sinks_at_or_beyond_the_limit() {
    let magnet = Magnet::new(vec![0usize, 1, 2]);
    let keys = [50u64, 60, 70];
    assert_eq!(magnet.nearest(|i| keys[i], 50), None);
    assert_eq!(magnet.nearest(|i| keys[i], 51), Some(0));
    assert_eq!(magnet.nearest(|i| keys[i], 0), None);
    let far = Magnet::new(vec![(f32::INFINITY, 0.0f32), (f32::NAN, 0.0)]);
    assert_eq!(far.nearest(|s| squared_distance((0.0, 0.0), s), limit()), None);
}

#[test]
fn noise_function_names() {
    assert_eq!(NoiseFunction::Fbm.to_string(), "Fbm");
    assert_eq!(NoiseFunction::Billow.to_string(), "Billow");
    assert_eq!(NoiseFunction::Ridged.to_string(), "Ridged");
    assert_eq!(NoiseFunction::Value.to_string(), "Value");
    assert_eq!(NoiseFunction::Cylinders.to_string(), "Cylinders");
    assert_eq!(NoiseFunction::Worley.to_string(), "Worley");
    assert_eq!(NoiseFunction::Curl.to_string(), "Curl");
    assert_eq!(NoiseFunction::Magnet.to_string(), "Magnet");
    assert_eq!(NoiseFunction::Gravity.to_string(), "Gravity");
    assert_eq!(NoiseFunction::Sinusoidal.to_string(), "Sinusoidal");
}

#[test]
fn fractal_kinds_are_the_octave_built_ones() {
    assert!(NoiseFunction::Fbm.is_fractal());
    assert!(NoiseFunction::Billow.is_fractal());
    assert!(NoiseFunction::Ridged.is_fractal());
    assert!(NoiseFunction::Curl.is_fractal());
    assert!(!NoiseFunction::Value.is_fractal());
    assert!(!NoiseFunction::Cylinders.is_fractal());
    assert!(!NoiseFunction::Worley.is_fractal());
    assert!(!NoiseFunction::Magnet.is_fractal());
    assert!(!NoiseFunction::Gravity.is_fractal());
    assert!(!NoiseFunction::Sinusoidal.is_fractal());
}

#[test]
fn attractor_fields_are_not_scaled() {
    assert!(!NoiseFunction::Magnet.is_scaled());
    assert!(!NoiseFunction::Gravity.is_scaled());
    assert!(NoiseFunction::Fbm.is_scaled());
    assert!(NoiseFunction::Billow.is_scaled());
    assert!(NoiseFunction::Ridged.is_scaled());
    assert!(NoiseFunction::Value.is_scaled());
    assert!(NoiseFunction::Cylinders.is_scaled());
    assert!(NoiseFunction::Worley.is_scaled());
    assert!(NoiseFunction::Curl.is_scaled());
    assert!(NoiseFunction::Sinusoidal.is_scaled());
}

#[test]
fn noise_controls_new_takes_scale_before_factor() {
    let c = NoiseControls::new(NoiseFunction::Ridged, 3.0f32, 1.3);
    assert_eq!(c.noise_function, Some(NoiseFunction::Ridged));
    assert_eq!(c.noise_scale, 3.0);
    assert_eq!(c.noise_factor, 1.3);
}

#[test]
fn noise_controls_setters_change_one_field() {
    let c = NoiseControls::new(NoiseFunction::Fbm, 4.0f32, 1.0);
    assert_eq!(
        c.set_noise_function(NoiseFunction::Value),
        NoiseControls { noise_function: Some(NoiseFunction::Value), noise_factor: 1.0, noise_scale: 4.0 }
    );
    assert_eq!(
        c.set_noise_factor(2.5),
        NoiseControls { noise_function: Some(NoiseFunction::Fbm), noise_factor: 2.5, noise_scale: 4.0 }
    );
    assert_eq!(
        c.set_noise_scale(9.0),
        NoiseControls { noise_function: Some(NoiseFunction::Fbm), noise_factor: 1.0, noise_scale: 9.0 }
    );
}

#[test]
fn sinusoidal_new_keeps_its_parameters() {
    let s = Sinusoidal::new(1.0f64, 2.0, 3.0, 4.0);
    assert_eq!(s, Sinusoidal { x_freq: 1.0, y_freq: 2.0, x_exp: 3.0, y_exp: 4.0 });
}
