//! The fractal variants, the bounded iteration that decides for one point whether and when
//! it escapes or converges, and the choice of the pixel for what the iteration found.

use vstd::prelude::*;
use crate::pixel::{spectrum_of, Pixel};
use crate::polynomial::{derivable, is_derivative, term_derivable, Polynomial, Term};

verus! {

/// The selectable fractals: four escape-time formulas and five Newton presets.
#[derive(Clone, Copy, Debug, PartialEq, Eq, Structural)]
pub enum Variant {
    /// `z <- z^d + c`, from the origin, with the point as `c`.
    Mandelbrot,
    /// `z <- z^d + c`, from the point, with a fixed `c`.
    Julia,
    /// `z <- conj(z)^d + c`, from the origin, with the point as `c`.
    Mandelbar,
    /// `z <- (|Re z| + i |Im z|)^d + c`, from the origin, with the point as `c`.
    BurningShip,
    /// Newton's method on `z^3 - 1`.
    Newton,
    /// Newton's method on `z^3 - 2z + 2`.
    Newton2,
    /// Newton's method on `z^6 + z^3 - 1`.
    Newton3,
    /// Newton's method on `z^5 - 2`.
    Newton4,
    /// Newton's method on `z^3 - 1 + 1/z`.
    Newton5,
}

/// The colour models.
#[derive(Clone, Copy, Debug, PartialEq, Eq, Structural)]
pub enum Colorization {
    /// A linear sweep through the red, green and blue bands.
    SpectrumSweep,
    /// Hue by channel, whiteness and blackness by thresholds on the count.
    ThresholdHWB,
}

/// Where an iteration starts and what plays the part of the constant.
#[derive(Clone, Copy, Debug, PartialEq, Eq, Structural)]
pub enum Seed {
    /// The iteration starts at the origin, and the point is the constant.
    Origin,
    /// The iteration starts at the point, and the configured constant is the constant.
    Point,
}

/// A point of the plane in billionths: `re * 10^-9 + i * im * 10^-9`.
#[derive(Clone, Copy, Debug, PartialEq, Eq, Structural)]
pub struct Root {
    pub re: i64,
    pub im: i64,
}

/// A Newton fractal: a polynomial, its derivative, and the roots whose basins are coloured.
/// The position of a root in the list is its channel.
#[derive(Debug)]
pub struct Newton {
    pub polynomial: Polynomial,
    pub derivative: Polynomial,
    pub roots: Vec<Root>,
}

/// A fractal, ready to be iterated.
#[derive(Debug)]
pub enum Fractal {
    Mandelbrot,
    Julia,
    Mandelbar,
    BurningShip,
    Newton(Newton),
}

/// The term `coefficient * z^exponent`.
pub open spec fn term(coefficient: int, exponent: int) -> Term {
    Term { coefficient: coefficient as i64, exponent: exponent as i32 }
}

/// The point `re * 10^-9 + i * im * 10^-9`.
pub open spec fn root(re: int, im: int) -> Root {
    Root { re: re as i64, im: im as i64 }
}

/// The polynomial of a Newton preset; empty for the escape-time variants.
pub open spec fn polynomial_of(variant: Variant) -> Seq<Term> {
    match variant {
        Variant::Newton => seq![
            term(1, 3),
            term(-1, 0),
        ],
        Variant::Newton2 => seq![
            term(1, 3),
            term(-2, 1),
            term(2, 0),
        ],
        Variant::Newton3 => seq![
            term(1, 6),
            term(1, 3),
            term(-1, 0),
        ],
        Variant::Newton4 => seq![
            term(1, 5),
            term(-2, 0),
        ],
        Variant::Newton5 => seq![
            term(1, 3),
            term(-1, 0),
            term(1, -1),
        ],
        _ => seq![],
    }
}

/// The roots of a Newton preset, in channel order; empty for the escape-time variants.
pub open spec fn roots_of(variant: Variant) -> Seq<Root> {
    match variant {
        Variant::Newton => seq![
            root(1_000_000_000, 0),
            root(-500_000_000, 866_025_404),
            root(-500_000_000, -866_025_404),
        ],
        Variant::Newton2 => seq![
            root(-1_769_300_000, 0),
            root(884_650_000, -589_740_000),
            root(884_650_000, 589_740_000),
        ],
        Variant::Newton3 => seq![
            root(586_990_000, 1_016_700_000),
            root(851_800_000, 0),
            root(586_990_000, -1_016_700_000),
            root(-425_900_000, -737_680_000),
            root(-1_174_000_000, 0),
            root(-425_900_000, 737_680_000),
        ],
        Variant::Newton4 => seq![
            root(-929_316_000, -675_188_000),
            root(-929_316_000, 675_188_000),
            root(354_967_000, -1_092_480_000),
            root(354_967_000, 1_092_480_000),
            root(1_148_700_000, 0),
        ],
        Variant::Newton5 => seq![
            root(-727_140_000, -934_100_000),
            root(-727_140_000, 934_100_000),
            root(727_140_000, -430_010_000),
            root(727_140_000, 430_010_000),
        ],
        _ => seq![],
    }
}

/// Every preset polynomial has a derivative that can be written down.
proof fn lemma_presets_derivable(variant: Variant)
    ensures
        derivable(polynomial_of(variant)),
{
    let p = polynomial_of(variant);
    assert forall|k: int| 0 <= k < p.len() implies term_derivable(#[trigger] p[k]) by {
        let t = p[k];
        assert(-2 <= t.coefficient <= 2 && -1 <= t.exponent <= 6);
        assert(-12 <= t.coefficient * t.exponent <= 12) by (nonlinear_arith)
            requires
                -2 <= t.coefficient <= 2,
                -1 <= t.exponent <= 6,
        ;
    }
}

impl Variant {
    /// `fractal` is the fractal that this variant selects.
    pub open spec fn selects(self, fractal: Fractal) -> bool {
        match self {
            Variant::Mandelbrot => fractal is Mandelbrot,
            Variant::Julia => fractal is Julia,
            Variant::Mandelbar => fractal is Mandelbar,
            Variant::BurningShip => fractal is BurningShip,
            _ => fractal matches Fractal::Newton(newton) && {
                &&& newton.polynomial@ == polynomial_of(self)
                &&& is_derivative(newton.derivative@, newton.polynomial@)
                &&& newton.roots@ == roots_of(self)
            },
        }
    }

    /// The polynomial and the roots of a Newton preset.
    fn preset(&self) -> (r: (Vec<Term>, Vec<Root>))
        ensures
            r.0@ == polynomial_of(*self),
            r.1@ == roots_of(*self),
    {
        match self {
            Variant::Newton => (
                vec![Term { coefficient: 1, exponent: 3 }, Term { coefficient: -1, exponent: 0 }],
                vec![
                    Root { re: 1_000_000_000, im: 0 },
                    Root { re: -500_000_000, im: 866_025_404 },
                    Root { re: -500_000_000, im: -866_025_404 },
                ],
            ),
            Variant::Newton2 => (
                vec![
                    Term { coefficient: 1, exponent: 3 },
                    Term { coefficient: -2, exponent: 1 },
                    Term { coefficient: 2, exponent: 0 },
                ],
                vec![
                    Root { re: -1_769_300_000, im: 0 },
                    Root { re: 884_650_000, im: -589_740_000 },
                    Root { re: 884_650_000, im: 589_740_000 },
                ],
            ),
            Variant::Newton3 => (
                vec![
                    Term { coefficient: 1, exponent: 6 },
                    Term { coefficient: 1, exponent: 3 },
                    Term { coefficient: -1, exponent: 0 },
                ],
                vec![
                    Root { re: 586_990_000, im: 1_016_700_000 },
                    Root { re: 851_800_000, im: 0 },
                    Root { re: 586_990_000, im: -1_016_700_000 },
                    Root { re: -425_900_000, im: -737_680_000 },
                    Root { re: -1_174_000_000, im: 0 },
                    Root { re: -425_900_000, im: 737_680_000 },
                ],
            ),
            Variant::Newton4 => (
                vec![Term { coefficient: 1, exponent: 5 }, Term { coefficient: -2, exponent: 0 }],
                vec![
                    Root { re: -929_316_000, im: -675_188_000 },
                    Root { re: -929_316_000, im: 675_188_000 },
                    Root { re: 354_967_000, im: -1_092_480_000 },
                    Root { re: 354_967_000, im: 1_092_480_000 },
                    Root { re: 1_148_700_000, im: 0 },
                ],
            ),
            Variant::Newton5 => (
                vec![
                    Term { coefficient: 1, exponent: 3 },
                    Term { coefficient: -1, exponent: 0 },
                    Term { coefficient: 1, exponent: -1 },
                ],
                vec![
                    Root { re: -727_140_000, im: -934_100_000 },
                    Root { re: -727_140_000, im: 934_100_000 },
                    Root { re: 727_140_000, im: -430_010_000 },
                    Root { re: 727_140_000, im: 430_010_000 },
                ],
            ),
            _ => (Vec::new(), Vec::new()),
        }
    }

    /// The fractal that this variant selects. For a Newton preset the derivative is
    /// computed from the polynomial.
    pub fn get_fractal(&self) -> (fractal: Fractal)
        ensures
            self.selects(fractal),
    {
        match self {
            Variant::Mandelbrot => Fractal::Mandelbrot,
            Variant::Julia => Fractal::Julia,
            Variant::Mandelbar => Fractal::Mandelbar,
            Variant::BurningShip => Fractal::BurningShip,
            _ => {
                let (terms, roots) = self.preset();
                proof {
                    lemma_presets_derivable(*self);
                }
                match Newton::new(Polynomial { terms }, roots) {
                    Some(newton) => Fractal::Newton(newton),
                    // Unreachable: the derivative of every preset can be written down.
                    None => Fractal::Mandelbrot,
                }
            },
        }
    }
}

impl Newton {
    /// A Newton fractal of the given polynomial and roots, with the derivative computed from
    /// the polynomial; `None` where the derivative cannot be written down.
    pub fn new(polynomial: Polynomial, roots: Vec<Root>) -> (r: Option<Newton>)
        ensures
            r is Some <==> derivable(polynomial@),
            r matches Some(newton) ==> {
                &&& newton.polynomial == polynomial
                &&& is_derivative(newton.derivative@, polynomial@)
                &&& newton.roots == roots
            },
    {
        match polynomial.derivative() {
            Some(derivative) => Some(Newton { polynomial, derivative, roots }),
            None => None,
        }
    }
}

/// The configuration of one render.
#[derive(Debug, PartialEq)]
pub struct Options<K> {
    /// The bound on the number of steps.
    pub precision: usize,
    /// Whether a continuous count is derived from the step count.
    pub smooth: bool,
    pub variant: Variant,
    /// The power of the escape-time formulas.
    pub order: i32,
    pub colorization: Colorization,
    /// The real-valued settings: the constant of the formula and the knobs of the colour
    /// model.
    pub knobs: K,
}

impl<K: Copy> Clone for Options<K> {
    fn clone(&self) -> (copy: Self)
        ensures
            copy == *self,
    {
        *self
    }
}

impl<K: Copy> Copy for Options<K> {

}

/// Why a configuration is refused.
#[derive(Clone, Copy, Debug, PartialEq, Eq, Structural)]
pub enum OptionsError {
    /// The precision is zero, so that no step could be taken.
    ZeroPrecision,
    /// The order is below two.
    OrderBelowTwo,
}

impl<K> Options<K> {
    /// The configuration can be rendered with: the precision is positive and the order is at
    /// least two.
    pub open spec fn valid(&self) -> bool {
        self.precision > 0 && self.order >= 2
    }

    /// Checks the configuration before it is put to use, and says what is wrong with one
    /// that is not valid.
    pub fn validate(&self) -> (r: Result<(), OptionsError>)
        ensures
            r is Ok <==> self.valid(),
            r == Err::<(), OptionsError>(OptionsError::ZeroPrecision) <==> self.precision == 0,
            r == Err::<(), OptionsError>(OptionsError::OrderBelowTwo) <==> self.precision > 0
                && self.order < 2,
    {
        if self.precision == 0 {
            Err(OptionsError::ZeroPrecision)
        } else if self.order < 2 {
            Err(OptionsError::OrderBelowTwo)
        } else {
            Ok(())
        }
    }
}

/// What the iteration found for one point: the step at which a channel accepted the value,
/// which channel that was, and the last two values, from which a caller may derive a
/// continuous count.
#[derive(Debug, PartialEq)]
pub struct Iterations<Z> {
    /// The number of steps taken before the accepted one.
    pub n: usize,
    /// The channel that accepted `z`.
    pub channel: usize,
    /// The number of channels that were tested.
    pub channels: usize,
    /// The accepted value.
    pub z: Z,
    /// The value before the accepted one.
    pub last_z: Z,
}

impl<Z: Copy> Clone for Iterations<Z> {
    fn clone(&self) -> (copy: Self)
        ensures
            copy == *self,
    {
        *self
    }
}

impl<Z: Copy> Copy for Iterations<Z> {

}

pub type IterationsMaybe<Z> = Option<Iterations<Z>>;

/// `orbit` begins at `start`, and each later value is one that `step` gives for the value
/// before it.
pub open spec fn is_orbit<Z, S: Fn(&Z) -> Z>(orbit: Seq<Z>, start: Z, step: S) -> bool {
    &&& orbit.len() > 0
    &&& orbit[0] == start
    &&& forall|k: int|
        1 <= k < orbit.len() ==> call_ensures(step, (&orbit[k - 1],), #[trigger] orbit[k])
}

/// Every one of the first `channels` channels turns `z` down.
pub open spec fn unsettled<Z, T: Fn(&Z, usize) -> bool>(z: Z, settled: T, channels: nat) -> bool {
    forall|c: usize| c < channels ==> #[trigger] call_ensures(settled, (&z, c), false)
}

/// `channel` accepts `z`, and every channel before it turns `z` down.
pub open spec fn settles_in<Z, T: Fn(&Z, usize) -> bool>(z: Z, settled: T, channel: usize) -> bool {
    &&& call_ensures(settled, (&z, channel), true)
    &&& unsettled(z, settled, channel as nat)
}

/// `orbit` runs from `start` for `steps` steps, and no value after the first is accepted by
/// any channel.
pub open spec fn is_unsettled_orbit<Z, S: Fn(&Z) -> Z, T: Fn(&Z, usize) -> bool>(
    orbit: Seq<Z>,
    start: Z,
    step: S,
    settled: T,
    channels: nat,
    steps: int,
) -> bool {
    &&& orbit.len() == steps + 1
    &&& is_orbit(orbit, start, step)
    &&& forall|k: int| 1 <= k <= steps ==> unsettled(#[trigger] orbit[k], settled, channels)
}

/// `found` is what the iteration from `start` yields within `precision` steps.
///
/// A result at step `n` means: the values after `1..=n` steps were turned down by every
/// channel, and the value after `n + 1` steps was accepted, first by `channel`. No result
/// means that every value after `1..=precision` steps was turned down.
pub open spec fn is_found<Z, S: Fn(&Z) -> Z, T: Fn(&Z, usize) -> bool>(
    found: IterationsMaybe<Z>,
    start: Z,
    step: S,
    settled: T,
    channels: nat,
    precision: usize,
) -> bool {
    match found {
        Some(it) => {
            &&& it.n < precision
            &&& it.channel < channels
            &&& it.channels == channels
            &&& settles_in(it.z, settled, it.channel)
            &&& call_ensures(step, (&it.last_z,), it.z)
            &&& exists|orbit: Seq<Z>|
                #![trigger is_unsettled_orbit(orbit, start, step, settled, channels, it.n as int)]
                is_unsettled_orbit(orbit, start, step, settled, channels, it.n as int)
                    && orbit[it.n as int] == it.last_z
        },
        None => exists|orbit: Seq<Z>|
            #![trigger is_unsettled_orbit(orbit, start, step, settled, channels, precision as int)]
            is_unsettled_orbit(orbit, start, step, settled, channels, precision as int),
    }
}

/// `p` is the pixel for `found`: the background where nothing was found, else the pixel of
/// the configured colour model. For the spectrum sweep that is the ramp pixel of a value
/// that `ramp` gives; for the threshold model it is the opaque pixel of a colour that
/// `threshold` gives.
pub open spec fn is_painted<Z, K, R: Fn(&Iterations<Z>, &Options<K>) -> i64, H: Fn(
    &Iterations<Z>,
    &Options<K>,
) -> (u8, u8, u8)>(
    p: Pixel,
    found: IterationsMaybe<Z>,
    options: Options<K>,
    ramp: R,
    threshold: H,
) -> bool {
    match found {
        None => p == (Pixel { r: 0, g: 0, b: 0, a: 255 }),
        Some(it) => match options.colorization {
            Colorization::SpectrumSweep => exists|v: i64|
                #![trigger call_ensures(ramp, (&it, &options), v)]
                call_ensures(ramp, (&it, &options), v) && p == spectrum_of(
                    v as int,
                    it.channel as int,
                    it.channels as int,
                ),
            Colorization::ThresholdHWB => exists|c: (u8, u8, u8)|
                #![trigger call_ensures(threshold, (&it, &options), c)]
                call_ensures(threshold, (&it, &options), c) && p == (Pixel {
                    r: c.0,
                    g: c.1,
                    b: c.2,
                    a: 255,
                }),
        },
    }
}

/// The first channel below `channels` that accepts `z`, tested in ascending order.
fn first_channel<Z, T: Fn(&Z, usize) -> bool>(z: &Z, settled: &T, channels: usize) -> (r:
    Option<usize>)
    requires
        forall|c: usize| c < channels ==> #[trigger] call_requires(*settled, (z, c)),
    ensures
        match r {
            Some(channel) => channel < channels && settles_in(*z, *settled, channel),
            None => unsettled(*z, *settled, channels as nat),
        },
{
    let mut c: usize = 0;
    while c < channels
        invariant
            c <= channels,
            unsettled(*z, *settled, c as nat),
            forall|c: usize| c < channels ==> #[trigger] call_requires(*settled, (z, c)),
        decreases channels - c,
    {
        if settled(z, c) {
            return Some(c);
        }
        c += 1;
    }
    None
}

impl Fractal {
    /// The number of channels: one for an escape-time fractal, the number of roots for a
    /// Newton fractal.
    pub open spec fn channels_of(&self) -> nat {
        match self {
            Fractal::Newton(newton) => newton.roots@.len(),
            _ => 1,
        }
    }

    /// The number of channels of this fractal.
    pub fn channels(&self) -> (c: usize)
        ensures
            c == self.channels_of(),
    {
        match self {
            Fractal::Newton(newton) => newton.roots.len(),
            _ => 1,
        }
    }

    /// Where the iteration starts: Julia and Newton fractals start at the point, the others
    /// at the origin.
    pub fn seed(&self) -> (s: Seed)
        ensures
            s == (if self is Julia || self is Newton {
                Seed::Point
            } else {
                Seed::Origin
            }),
    {
        match self {
            Fractal::Julia => Seed::Point,
            Fractal::Newton(_) => Seed::Point,
            _ => Seed::Origin,
        }
    }

    /// Iterates `step` from `start` for at most `options.precision` steps. After each step
    /// the channels of this fractal are asked in ascending order whether they accept the
    /// new value; the first that does ends the iteration.
    ///
    /// For an escape-time fractal there is one channel, and to accept means that the value
    /// has escaped. For a Newton fractal channel `c` accepts a value close to root `c`.
    ///
    /// The step count of a result is below the precision, and its channel is one of the
    /// channels of this fractal.
    pub fn get_iterations_at_point<Z, K, S: Fn(&Z) -> Z, T: Fn(&Z, usize) -> bool>(
        &self,
        start: Z,
        step: S,
        settled: T,
        options: &Options<K>,
    ) -> (found: IterationsMaybe<Z>)
        requires
            forall|z: Z| #[trigger] call_requires(step, (&z,)),
            forall|z: Z, c: usize|
                c < self.channels_of() ==> #[trigger] call_requires(settled, (&z, c)),
        ensures
            is_found(found, start, step, settled, self.channels_of(), options.precision),
            found matches Some(it) ==> it.n < options.precision && it.channel < it.channels,
    {
        let channels = self.channels();
        let precision = options.precision;
        let ghost mut orbit: Seq<Z> = seq![start];
        let mut z = start;
        let mut n: usize = 0;
        while n < precision
            invariant
                n <= precision,
                precision == options.precision,
                channels == self.channels_of(),
                is_unsettled_orbit(orbit, start, step, settled, channels as nat, n as int),
                orbit[n as int] == z,
                forall|z: Z| #[trigger] call_requires(step, (&z,)),
                forall|z: Z, c: usize| c < channels ==> #[trigger] call_requires(settled, (&z, c)),
            decreases precision - n,
        {
            let next = step(&z);
            match first_channel(&next, &settled, channels) {
                Some(channel) => {
                    assert(is_unsettled_orbit(orbit, start, step, settled, channels as nat, n as int));
                    return Some(Iterations { n, channel, channels, z: next, last_z: z });
                },
                None => {},
            }
            proof {
                orbit = orbit.push(next);
            }
            z = next;
            n += 1;
        }
        None
    }

    /// The pixel for what the iteration found. A point without a result gets the
    /// background, opaque black, whatever the options say.
    pub fn get_pixel_for_iteration<Z, K, R: Fn(&Iterations<Z>, &Options<K>) -> i64, H: Fn(
        &Iterations<Z>,
        &Options<K>,
    ) -> (u8, u8, u8)>(
        &self,
        iterations: IterationsMaybe<Z>,
        options: &Options<K>,
        ramp: R,
        threshold: H,
    ) -> (p: Pixel)
        requires
            forall|it: Iterations<Z>| #[trigger] call_requires(ramp, (&it, options)),
            forall|it: Iterations<Z>| #[trigger] call_requires(threshold, (&it, options)),
        ensures
            is_painted(p, iterations, *options, ramp, threshold),
            iterations is None ==> p == (Pixel { r: 0, g: 0, b: 0, a: 255 }),
    {
        match iterations {
            None => Pixel::black(),
            Some(it) => match options.colorization {
                Colorization::SpectrumSweep => {
                    let v = ramp(&it, options);
                    Pixel::spectrum(v, it.channel, it.channels)
                },
                Colorization::ThresholdHWB => {
                    let c = threshold(&it, options);
                    Pixel::from_color(c.0, c.1, c.2)
                },
            },
        }
    }

    /// The pixel for one point: what `get_pixel_for_iteration` makes of what
    /// `get_iterations_at_point` finds.
    pub fn get_pixel_at_point<
        Z,
        K,
        S: Fn(&Z) -> Z,
        T: Fn(&Z, usize) -> bool,
        R: Fn(&Iterations<Z>, &Options<K>) -> i64,
        H: Fn(&Iterations<Z>, &Options<K>) -> (u8, u8, u8),
    >(&self, start: Z, step: S, settled: T, options: &Options<K>, ramp: R, threshold: H) -> (p:
        Pixel)
        requires
            forall|z: Z| #[trigger] call_requires(step, (&z,)),
            forall|z: Z, c: usize|
                c < self.channels_of() ==> #[trigger] call_requires(settled, (&z, c)),
            forall|it: Iterations<Z>| #[trigger] call_requires(ramp, (&it, options)),
            forall|it: Iterations<Z>| #[trigger] call_requires(threshold, (&it, options)),
        ensures
            exists|found: IterationsMaybe<Z>|
                #![trigger is_painted(p, found, *options, ramp, threshold)]
                is_found(found, start, step, settled, self.channels_of(), options.precision)
                    && is_painted(p, found, *options, ramp, threshold),
    {
        let found = self.get_iterations_at_point(start, step, settled, options);
        let ghost witness = found;
        let p = self.get_pixel_for_iteration(found, options, ramp, threshold);
        assert(is_painted(p, witness, *options, ramp, threshold));
        p
    }
}

} // verus!
