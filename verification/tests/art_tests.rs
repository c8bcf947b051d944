use k2::art::{CanvasRequest, Choices, Colors, ConfigError, Plan, Stroke};
use k2::background::Background;
use k2::color::{ColorMode, Palettes};
use k2::common::{CurveDirection, CurveStyle};
use k2::dot::DotStyle;
use k2::gradient::GradStyle;
use k2::location::Location;
use k2::noise::NoiseFunction;
use k2::size::{Dir, SizeFn};

fn choices() -> Choices {
    Choices {
        background: Some(Background::LightFiber),
        noise_function: Some(NoiseFunction::Fbm),
        location: Some(Location::Halton),
        color_mode: Some(ColorMode::Scale),
        palette_choice: Some(Palettes::Royalty),
        curve_style: Some(CurveStyle::Dots),
        curve_direction: Some(CurveDirection::OneSided),
        dot_style: Some(DotStyle::Circle),
        dot_size_fn: Some(SizeFn::Contracting),
        dot_direction: Some(Dir::Both),
        extrude_size_fn: Some(SizeFn::Periodic),
        extrude_direction: Some(Dir::Vertical),
        grad_style: Some(GradStyle::Plain),
    }
}

fn planned() -> Plan {
    Plan {
        background: Background::LightFiber,
        noise_function: NoiseFunction::Fbm,
        location: Location::Halton,
        colors: Colors::Scale,
        size_fn: SizeFn::Contracting,
        direction: Dir::Both,
        curve_direction: CurveDirection::OneSided,
        stroke: Stroke::Dots(DotStyle::Circle),
    }
}

#[test]
fn canvas_request_reads_two_numbers() {
    assert_eq!(CanvasRequest::parse("1080", "1080"), Some(CanvasRequest { width: 1080, height: 1080 }));
    assert_eq!(CanvasRequest::parse("1000", "1200"), Some(CanvasRequest { width: 1000, height: 1200 }));
    assert_eq!(CanvasRequest::parse("0", "007"), Some(CanvasRequest { width: 0, height: 7 }));
    assert_eq!(CanvasRequest::parse("+12", "+0"), Some(CanvasRequest { width: 12, height: 0 }));
    assert_eq!(
        CanvasRequest::parse("4294967295", "1"),
        Some(CanvasRequest { width: u32::MAX, height: 1 })
    );
}

#[test]
fn canvas_request_needs_both_numbers() {
    assert_eq!(CanvasRequest::parse("", ""), None);
    assert_eq!(CanvasRequest::parse("1080", ""), None);
    assert_eq!(CanvasRequest::parse("", "1080"), None);
    assert_eq!(CanvasRequest::parse("wide", "1080"), None);
}

#[test]
fn canvas_request_refuses_what_is_no_number() {
    for text in ["-1", "+", "-", "1 ", " 1", "1_000", "1.5", "0x10", "12a", "4294967296", "99999999999", "++1", "١٢"] {
        assert_eq!(CanvasRequest::parse(text, "10"), None);
        assert_eq!(CanvasRequest::parse("10", text), None);
    }
}

#[test]
fn canvas_request_orientation() {
    assert!(CanvasRequest { width: 1080, height: 1080 }.is_wide());
    assert!(CanvasRequest { width: 1200, height: 1000 }.is_wide());
    assert!(!CanvasRequest { width: 1000, height: 1200 }.is_wide());
    assert_eq!(CanvasRequest { width: 1000, height: 1200 }.longer_side(), 1200);
    assert_eq!(CanvasRequest { width: 1300, height: 1200 }.longer_side(), 1300);
    assert_eq!(CanvasRequest { width: 5, height: 5 }.longer_side(), 5);
}

#[test]
fn canvas_request_without_a_side_is_refused() {
    let square = CanvasRequest { width: 1080, height: 1080 };
    assert_eq!(square.checked(), Ok(square));
    let thin = CanvasRequest { width: 1, height: u32::MAX };
    assert_eq!(thin.checked(), Ok(thin));
    assert_eq!(CanvasRequest { width: 0, height: 1080 }.checked(), Err(ConfigError::CanvasSize));
    assert_eq!(CanvasRequest { width: 1080, height: 0 }.checked(), Err(ConfigError::CanvasSize));
    assert_eq!(CanvasRequest { width: 0, height: 0 }.checked(), Err(ConfigError::CanvasSize));
}

#[test]
fn plan_of_complete_choices() {
    assert_eq!(choices().plan(), Ok(planned()));
}

#[test]
fn plan_reads_sizes_from_the_dot_controls_only_for_dots() {
    let line = Choices { curve_style: Some(CurveStyle::Line), ..choices() };
    assert_eq!(
        line.plan(),
        Ok(Plan { size_fn: SizeFn::Periodic, direction: Dir::Vertical, stroke: Stroke::Line, ..planned() })
    );
    let ribbon = Choices { curve_style: Some(CurveStyle::Extrusion), ..choices() };
    assert_eq!(
        ribbon.plan(),
        Ok(Plan {
            size_fn: SizeFn::Periodic,
            direction: Dir::Vertical,
            stroke: Stroke::Extrusion(GradStyle::Plain),
            ..planned()
        })
    );
}

#[test]
fn plan_says_where_the_sizes_are_read() {
    assert!(planned().sized_as_dots());
    assert!(!Plan { stroke: Stroke::Line, ..planned() }.sized_as_dots());
    assert!(!Plan { stroke: Stroke::Extrusion(GradStyle::Fiber), ..planned() }.sized_as_dots());
}

#[test]
fn plan_takes_the_palette_only_in_palette_mode() {
    let scale = Choices { palette_choice: None, ..choices() };
    assert_eq!(scale.plan(), Ok(planned()));
    let palette = Choices { color_mode: Some(ColorMode::Palette), ..choices() };
    assert_eq!(palette.plan(), Ok(Plan { colors: Colors::Palette(Palettes::Royalty), ..planned() }));
}

#[test]
fn plan_needs_only_what_the_style_asks_for() {
    let dots = Choices { grad_style: None, extrude_size_fn: None, extrude_direction: None, ..choices() };
    assert_eq!(dots.plan(), Ok(planned()));
    let line = Choices {
        curve_style: Some(CurveStyle::Line),
        dot_style: None,
        grad_style: None,
        dot_size_fn: None,
        dot_direction: None,
        ..choices()
    };
    assert!(line.plan().is_ok());
}

#[test]
fn plan_names_each_missing_selection() {
    assert_eq!(Choices { background: None, ..choices() }.plan(), Err(ConfigError::Background));
    assert_eq!(Choices { noise_function: None, ..choices() }.plan(), Err(ConfigError::NoiseFunction));
    assert_eq!(Choices { location: None, ..choices() }.plan(), Err(ConfigError::Location));
    assert_eq!(Choices { color_mode: None, ..choices() }.plan(), Err(ConfigError::ColorMode));
    assert_eq!(
        Choices { color_mode: Some(ColorMode::Palette), palette_choice: None, ..choices() }.plan(),
        Err(ConfigError::Palette)
    );
    assert_eq!(Choices { dot_size_fn: None, ..choices() }.plan(), Err(ConfigError::SizeFn));
    assert_eq!(Choices { dot_direction: None, ..choices() }.plan(), Err(ConfigError::Direction));
    assert_eq!(
        Choices { curve_style: Some(CurveStyle::Line), extrude_size_fn: None, ..choices() }.plan(),
        Err(ConfigError::SizeFn)
    );
    assert_eq!(
        Choices { curve_style: Some(CurveStyle::Extrusion), extrude_direction: None, ..choices() }
            .plan(),
        Err(ConfigError::Direction)
    );
    assert_eq!(Choices { curve_direction: None, ..choices() }.plan(), Err(ConfigError::CurveDirection));
    assert_eq!(Choices { curve_style: None, ..choices() }.plan(), Err(ConfigError::CurveStyle));
    assert_eq!(Choices { dot_style: None, ..choices() }.plan(), Err(ConfigError::DotStyle));
    assert_eq!(
        Choices { curve_style: Some(CurveStyle::Extrusion), grad_style: None, ..choices() }.plan(),
        Err(ConfigError::GradStyle)
    );
}

#[test]
fn plan_names_the_first_missing_selection() {
    let open = Choices {
        background: None,
        noise_function: None,
        location: None,
        color_mode: None,
        palette_choice: None,
        curve_style: None,
        curve_direction: None,
        dot_style: None,
        dot_size_fn: None,
        dot_direction: None,
        extrude_size_fn: None,
        extrude_direction: None,
        grad_style: None,
    };
    assert_eq!(open.plan(), Err(ConfigError::Background));
    let open = Choices { background: Some(Background::DarkGrain), ..open };
    assert_eq!(open.plan(), Err(ConfigError::NoiseFunction));
    let open = Choices { noise_function: Some(NoiseFunction::Curl), location: Some(Location::Grid), ..open };
    assert_eq!(open.plan(), Err(ConfigError::ColorMode));
    let open = Choices { color_mode: Some(ColorMode::Scale), ..open };
    assert_eq!(open.plan(), Err(ConfigError::SizeFn));
    let open = Choices { extrude_size_fn: Some(SizeFn::Constant), ..open };
    assert_eq!(open.plan(), Err(ConfigError::Direction));
    let open = Choices { extrude_direction: Some(Dir::Both), ..open };
    assert_eq!(open.plan(), Err(ConfigError::CurveDirection));
    let open = Choices { curve_direction: Some(CurveDirection::TwoSided), ..open };
    assert_eq!(open.plan(), Err(ConfigError::CurveStyle));
}

#[test]
fn config_error_texts() {
    assert_eq!(ConfigError::Background.to_string(), "controls.background cannot be None");
    assert_eq!(ConfigError::NoiseFunction.to_string(), "controls.noise_function cannot be None");
    assert_eq!(ConfigError::Location.to_string(), "controls.location cannot be None");
    assert_eq!(ConfigError::ColorMode.to_string(), "controls.mode cannot be None");
    assert_eq!(ConfigError::Palette.to_string(), "controls.palette_choice cannot be None");
    assert_eq!(ConfigError::SizeFn.to_string(), "controls.size_fn cannot be None");
    assert_eq!(ConfigError::Direction.to_string(), "controls.direction cannot be None");
    assert_eq!(ConfigError::CurveDirection.to_string(), "controls.curve_direction cannot be None");
    assert_eq!(ConfigError::CurveStyle.to_string(), "controls.curve_style cannot be None");
    assert_eq!(ConfigError::DotStyle.to_string(), "controls.dot_style cannot be None");
    assert_eq!(
        ConfigError::GradStyle.to_string(),
        "controls.extrude_controls.grad_style cannot be None"
    );
    assert_eq!(ConfigError::CanvasSize.to_string(), "controls.width and controls.height cannot be 0");
}
