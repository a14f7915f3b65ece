use color_processing::Color;
use frustal::{
    Colorization, Fractal, Iterations, Options, OptionsError, Pixel, Polynomial, Root, Seed, Term,
    Variant,
};
use num_complex::Complex64;

const EPSILON: f64 = 0.00001;

fn options(variant: Variant, precision: usize, colorization: Colorization) -> Options<f64> {
    Options { precision, smooth: false, variant, order: 2, colorization, knobs: 1.0 }
}

fn mandelbrot(c: Complex64, precision: usize) -> Option<Iterations<Complex64>> {
    let options = options(Variant::Mandelbrot, precision, Colorization::SpectrumSweep);
    Variant::Mandelbrot.get_fractal().get_iterations_at_point(
        Complex64::new(0.0, 0.0),
        |z: &Complex64| z * z + c,
        |z: &Complex64, _channel: usize| z.norm_sqr() > 4.0,
        &options,
    )
}

fn evaluate(polynomial: &Polynomial, z: Complex64) -> Complex64 {
    let mut sum = Complex64::new(0.0, 0.0);
    for term in &polynomial.terms {
        sum += z.powi(term.exponent) * (term.coefficient as f64);
    }
    sum
}

fn plane(root: &Root) -> Complex64 {
    Complex64::new(root.re as f64 / 1e9, root.im as f64 / 1e9)
}

fn newton(variant: Variant, start: Complex64, precision: usize) -> Option<Iterations<Complex64>> {
    let options = options(variant, precision, Colorization::ThresholdHWB);
    let fractal = variant.get_fractal();
    let Fractal::Newton(preset) = &fractal else {
        panic!("not a Newton preset");
    };
    fractal.get_iterations_at_point(
        start,
        |z: &Complex64| z - evaluate(&preset.polynomial, *z) / evaluate(&preset.derivative, *z),
        |z: &Complex64, channel: usize| (z - plane(&preset.roots[channel])).norm_sqr() < EPSILON,
        &options,
    )
}

fn ramp(found: &Iterations<Complex64>, options: &Options<f64>) -> i64 {
    let t = found.n as f64 / options.precision as f64 * options.knobs;
    (3.0 * 255.0 * t).round() as i64
}

fn hwb(found: &Iterations<Complex64>, _options: &Options<f64>) -> (u8, u8, u8) {
    let hue = found.channel as f64 * 360.0 / found.channels as f64;
    let color = Color::new_hwb(hue, 0.0, 0.0);
    (color.red, color.green, color.blue)
}

fn found_at(n: usize, channel: usize, channels: usize) -> Option<Iterations<Complex64>> {
    let z = Complex64::new(3.0, 0.0);
    Some(Iterations { n, channel, channels, z, last_z: z })
}

#[test]
fn escape_time_variants_have_one_channel() {
    for variant in [Variant::Mandelbrot, Variant::Julia, Variant::Mandelbar, Variant::BurningShip] {
        assert_eq!(variant.get_fractal().channels(), 1);
    }
}

#[test]
fn get_fractal_selects_by_variant() {
    assert!(matches!(Variant::Mandelbrot.get_fractal(), Fractal::Mandelbrot));
    assert!(matches!(Variant::Julia.get_fractal(), Fractal::Julia));
    assert!(matches!(Variant::Mandelbar.get_fractal(), Fractal::Mandelbar));
    assert!(matches!(Variant::BurningShip.get_fractal(), Fractal::BurningShip));
    for variant in
        [Variant::Newton, Variant::Newton2, Variant::Newton3, Variant::Newton4, Variant::Newton5]
    {
        assert!(matches!(variant.get_fractal(), Fractal::Newton(_)));
    }
}

#[test]
fn newton_presets_have_a_channel_for_each_root() {
    assert_eq!(Variant::Newton.get_fractal().channels(), 3);
    assert_eq!(Variant::Newton2.get_fractal().channels(), 3);
    assert_eq!(Variant::Newton3.get_fractal().channels(), 6);
    assert_eq!(Variant::Newton4.get_fractal().channels(), 5);
    assert_eq!(Variant::Newton5.get_fractal().channels(), 4);
}

#[test]
fn newton_preset_of_the_cube_roots_of_one() {
    let Fractal::Newton(preset) = Variant::Newton.get_fractal() else {
        panic!("not a Newton preset");
    };
    assert_eq!(
        preset.polynomial.terms,
        vec![Term { coefficient: 1, exponent: 3 }, Term { coefficient: -1, exponent: 0 }]
    );
    assert_eq!(
        preset.derivative.terms,
        vec![Term { coefficient: 3, exponent: 2 }, Term { coefficient: 0, exponent: 0 }]
    );
    assert_eq!(
        preset.roots,
        vec![
            Root { re: 1_000_000_000, im: 0 },
            Root { re: -500_000_000, im: 866_025_404 },
            Root { re: -500_000_000, im: -866_025_404 },
        ]
    );
}

#[test]
fn newton_preset_with_a_reciprocal_term() {
    let Fractal::Newton(preset) = Variant::Newton5.get_fractal() else {
        panic!("not a Newton preset");
    };
    assert_eq!(
        preset.polynomial.terms,
        vec![
            Term { coefficient: 1, exponent: 3 },
            Term { coefficient: -1, exponent: 0 },
            Term { coefficient: 1, exponent: -1 },
        ]
    );
    assert_eq!(
        preset.derivative.terms,
        vec![
            Term { coefficient: 3, exponent: 2 },
            Term { coefficient: 0, exponent: 0 },
            Term { coefficient: -1, exponent: -2 },
        ]
    );
}

#[test]
fn newton_preset_derivatives_follow_from_the_polynomials() {
    for variant in
        [Variant::Newton, Variant::Newton2, Variant::Newton3, Variant::Newton4, Variant::Newton5]
    {
        let Fractal::Newton(preset) = variant.get_fractal() else {
            panic!("not a Newton preset");
        };
        let derivative = preset.polynomial.derivative().expect("presets are small");
        assert_eq!(preset.derivative.terms, derivative.terms);
    }
}

#[test]
fn newton_preset_roots_are_close_to_zeros() {
    for variant in
        [Variant::Newton, Variant::Newton2, Variant::Newton3, Variant::Newton4, Variant::Newton5]
    {
        let Fractal::Newton(preset) = variant.get_fractal() else {
            panic!("not a Newton preset");
        };
        for root in &preset.roots {
            assert!(evaluate(&preset.polynomial, plane(root)).norm() < 0.001);
        }
    }
}

#[test]
fn seed_is_the_point_for_julia_and_newton() {
    assert_eq!(Variant::Mandelbrot.get_fractal().seed(), Seed::Origin);
    assert_eq!(Variant::Mandelbar.get_fractal().seed(), Seed::Origin);
    assert_eq!(Variant::BurningShip.get_fractal().seed(), Seed::Origin);
    assert_eq!(Variant::Julia.get_fractal().seed(), Seed::Point);
    assert_eq!(Variant::Newton.get_fractal().seed(), Seed::Point);
    assert_eq!(Variant::Newton5.get_fractal().seed(), Seed::Point);
}

#[test]
fn validate_accepts_a_positive_precision_and_an_order_of_two() {
    let options = options(Variant::Mandelbrot, 1, Colorization::SpectrumSweep);
    assert_eq!(options.validate(), Ok(()));
}

#[test]
fn validate_refuses_a_precision_of_zero() {
    let options = options(Variant::Mandelbrot, 0, Colorization::SpectrumSweep);
    assert_eq!(options.validate(), Err(OptionsError::ZeroPrecision));
}

#[test]
fn validate_refuses_an_order_below_two() {
    let mut options = options(Variant::Julia, 25, Colorization::ThresholdHWB);
    options.order = 1;
    assert_eq!(options.validate(), Err(OptionsError::OrderBelowTwo));
    options.order = -3;
    assert_eq!(options.validate(), Err(OptionsError::OrderBelowTwo));
}

#[test]
fn validate_names_the_precision_first() {
    let mut options = options(Variant::Julia, 0, Colorization::ThresholdHWB);
    options.order = 0;
    assert_eq!(options.validate(), Err(OptionsError::ZeroPrecision));
}

#[test]
fn mandelbrot_minus_one_never_escapes() {
    assert!(mandelbrot(Complex64::new(-1.0, 0.0), 10_000).is_none());
    assert!(mandelbrot(Complex64::new(-1.0, 0.0), 1).is_none());
}

#[test]
fn mandelbrot_one_escapes_at_step_two() {
    let found = mandelbrot(Complex64::new(1.0, 0.0), 25).expect("1 + 0i escapes");
    assert_eq!(found.n, 2);
    assert_eq!(found.channel, 0);
    assert_eq!(found.channels, 1);
    assert_eq!(found.z, Complex64::new(5.0, 0.0));
    assert_eq!(found.last_z, Complex64::new(2.0, 0.0));
}

#[test]
fn mandelbrot_one_needs_three_steps() {
    assert!(mandelbrot(Complex64::new(1.0, 0.0), 2).is_none());
    assert!(mandelbrot(Complex64::new(1.0, 0.0), 3).is_some());
}

#[test]
fn mandelbrot_far_point_escapes_at_step_zero() {
    let found = mandelbrot(Complex64::new(3.0, 0.0), 1).expect("3 + 0i escapes at once");
    assert_eq!(found.n, 0);
    assert_eq!(found.z, Complex64::new(3.0, 0.0));
    assert_eq!(found.last_z, Complex64::new(0.0, 0.0));
}

#[test]
fn precision_zero_finds_nothing() {
    assert!(mandelbrot(Complex64::new(3.0, 0.0), 0).is_none());
}

#[test]
fn step_count_stays_below_the_precision() {
    for precision in [1, 2, 5, 25] {
        for row in 0..20 {
            for column in 0..30 {
                let c = Complex64::new(-2.0 + column as f64 * 0.1, -1.0 + row as f64 * 0.1);
                if let Some(found) = mandelbrot(c, precision) {
                    assert!(found.n < precision);
                    assert!(found.channel < found.channels);
                    assert!(found.z.norm_sqr() > 4.0);
                    assert!(found.last_z.norm_sqr() <= 4.0);
                }
            }
        }
    }
}

#[test]
fn newton_converges_to_the_root_one() {
    let found = newton(Variant::Newton, Complex64::new(0.9, 0.1), 25).expect("close to a root");
    assert_eq!(found.channel, 0);
    assert_eq!(found.channels, 3);
    assert!(found.n <= 3);
    assert!((found.z - Complex64::new(1.0, 0.0)).norm_sqr() < EPSILON);
    assert!((found.last_z - Complex64::new(1.0, 0.0)).norm_sqr() >= EPSILON);
}

#[test]
fn newton_converges_to_each_root_from_nearby() {
    let Fractal::Newton(preset) = Variant::Newton3.get_fractal() else {
        panic!("not a Newton preset");
    };
    for (channel, root) in preset.roots.iter().enumerate() {
        let start = plane(root) + Complex64::new(0.05, -0.05);
        let found = newton(Variant::Newton3, start, 25).expect("close to a root");
        assert_eq!(found.channel, channel);
        assert_eq!(found.channels, 6);
        assert!(found.n < 25);
    }
}

#[test]
fn newton_without_convergence_finds_nothing() {
    // From 0 the iteration on z^3 - 2z + 2 alternates between 0 and 1.
    assert!(newton(Variant::Newton2, Complex64::new(0.0, 0.0), 1_000).is_none());
}

#[test]
fn first_accepting_channel_wins() {
    let options = options(Variant::Newton, 10, Colorization::SpectrumSweep);
    let found = Variant::Newton
        .get_fractal()
        .get_iterations_at_point(
            0_i64,
            |z: &i64| z + 1,
            |z: &i64, channel: usize| *z >= 3 && channel >= 1,
            &options,
        )
        .expect("3 is accepted");
    assert_eq!(found, Iterations { n: 2, channel: 1, channels: 3, z: 3, last_z: 2 });
}

#[test]
fn channels_are_asked_in_ascending_order() {
    let asked = std::cell::RefCell::new(Vec::new());
    let options = options(Variant::Newton, 1, Colorization::SpectrumSweep);
    let found = Variant::Newton.get_fractal().get_iterations_at_point(
        0_i64,
        |z: &i64| z + 1,
        |_z: &i64, channel: usize| {
            asked.borrow_mut().push(channel);
            false
        },
        &options,
    );
    assert!(found.is_none());
    assert_eq!(*asked.borrow(), vec![0, 1, 2]);
}

#[test]
fn no_result_is_the_background_whatever_the_options() {
    let fractal = Variant::Mandelbrot.get_fractal();
    for colorization in [Colorization::SpectrumSweep, Colorization::ThresholdHWB] {
        for precision in [0, 1, 30] {
            let mut options = options(Variant::Newton4, precision, colorization);
            options.smooth = true;
            options.order = 7;
            let pixel = fractal.get_pixel_for_iteration(None, &options, ramp, hwb);
            assert_eq!(pixel, Pixel::new(0, 0, 0, 255));
        }
    }
}

#[test]
fn spectrum_sweep_of_step_zero_is_black() {
    let fractal = Variant::Mandelbrot.get_fractal();
    let options = options(Variant::Mandelbrot, 30, Colorization::SpectrumSweep);
    let pixel = fractal.get_pixel_for_iteration(found_at(0, 0, 1), &options, ramp, hwb);
    assert_eq!(pixel, Pixel::new(0, 0, 0, 255));
}

#[test]
fn spectrum_sweep_follows_the_ramp() {
    let fractal = Variant::Mandelbrot.get_fractal();
    let options = options(Variant::Mandelbrot, 30, Colorization::SpectrumSweep);
    // 3 * 255 * 10 / 30 = 255, 3 * 255 * 15 / 30 = 382.5, 3 * 255 * 29 / 30 = 739.5
    let pixel = fractal.get_pixel_for_iteration(found_at(10, 0, 1), &options, ramp, hwb);
    assert_eq!(pixel, Pixel::new(255, 0, 0, 255));
    let pixel = fractal.get_pixel_for_iteration(found_at(15, 0, 1), &options, ramp, hwb);
    assert_eq!(pixel, Pixel::new(255, 128, 0, 255));
    let pixel = fractal.get_pixel_for_iteration(found_at(29, 0, 1), &options, ramp, hwb);
    assert_eq!(pixel, Pixel::new(255, 255, 230, 255));
}

#[test]
fn spectrum_sweep_of_a_basin_uses_its_band() {
    let fractal = Variant::Newton.get_fractal();
    let options = options(Variant::Newton, 30, Colorization::SpectrumSweep);
    let pixel = fractal.get_pixel_for_iteration(found_at(5, 1, 3), &options, ramp, hwb);
    assert_eq!(pixel, Pixel::new(0, 128, 0, 255));
}

#[test]
fn threshold_model_takes_the_colour_as_it_is() {
    let fractal = Variant::Newton.get_fractal();
    let options = options(Variant::Newton, 30, Colorization::ThresholdHWB);
    let pixel = fractal.get_pixel_for_iteration(found_at(5, 0, 3), &options, ramp, hwb);
    assert_eq!(pixel, Pixel::new(255, 0, 0, 255));
    let pixel = fractal.get_pixel_for_iteration(found_at(5, 1, 3), &options, ramp, hwb);
    assert_eq!(pixel, Pixel::new(0, 255, 0, 255));
    let pixel = fractal.get_pixel_for_iteration(found_at(5, 2, 3), &options, ramp, hwb);
    assert_eq!(pixel, Pixel::new(0, 0, 255, 255));
}

#[test]
fn pixel_at_point_iterates_and_paints() {
    let fractal = Variant::Mandelbrot.get_fractal();
    let options = options(Variant::Mandelbrot, 30, Colorization::SpectrumSweep);
    let c = Complex64::new(1.0, 0.0);
    let pixel = fractal.get_pixel_at_point(
        Complex64::new(0.0, 0.0),
        |z: &Complex64| z * z + c,
        |z: &Complex64, _channel: usize| z.norm_sqr() > 4.0,
        &options,
        ramp,
        hwb,
    );
    // Step 2 of 30: 3 * 255 * 2 / 30 = 51.
    assert_eq!(pixel, Pixel::new(51, 0, 0, 255));
}

#[test]
fn pixel_at_point_of_a_bounded_point_is_the_background() {
    let fractal = Variant::Mandelbrot.get_fractal();
    let options = options(Variant::Mandelbrot, 30, Colorization::SpectrumSweep);
    let c = Complex64::new(-1.0, 0.0);
    let pixel = fractal.get_pixel_at_point(
        Complex64::new(0.0, 0.0),
        |z: &Complex64| z * z + c,
        |z: &Complex64, _channel: usize| z.norm_sqr() > 4.0,
        &options,
        ramp,
        hwb,
    );
    assert_eq!(pixel, Pixel::black());
}

#[test]
fn newton_of_a_polynomial_computes_the_derivative() {
    let polynomial = Polynomial {
        terms: vec![Term { coefficient: 1, exponent: 2 }, Term { coefficient: 1, exponent: 0 }],
    };
    let roots = vec![Root { re: 0, im: 1_000_000_000 }, Root { re: 0, im: -1_000_000_000 }];
    let newton = frustal::Newton::new(polynomial, roots.clone()).expect("a small polynomial");
    assert_eq!(
        newton.polynomial.terms,
        vec![Term { coefficient: 1, exponent: 2 }, Term { coefficient: 1, exponent: 0 }]
    );
    assert_eq!(
        newton.derivative.terms,
        vec![Term { coefficient: 2, exponent: 1 }, Term { coefficient: 0, exponent: 0 }]
    );
    assert_eq!(newton.roots, roots);
    assert_eq!(Fractal::Newton(newton).channels(), 2);
}

#[test]
fn newton_of_a_polynomial_without_derivative_is_refused() {
    let polynomial = Polynomial { terms: vec![Term { coefficient: i64::MIN, exponent: 2 }] };
    assert!(frustal::Newton::new(polynomial, Vec::new()).is_none());
}
