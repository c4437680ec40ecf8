//! The parametric fractal rasterizer.
//!
//! A parameter set selects one of four escape-time recurrences, a color
//! scheme and a window onto the complex plane. Every continuous quantity is
//! carried in thousandths on 64-bit integers, so rendering is exact and
//! bit-identical across runs and machines; the spec functions below are the
//! definition of every pixel the rasterizer produces.

use vstd::prelude::*;

use crate::fixed::{
    div_trunc, lemma_tdiv_bound, spec_atan2_milli, spec_cos_milli, spec_isqrt, spec_sin_milli,
    tdiv,
};

verus! {

#[derive(Debug, Clone, Copy, PartialEq, Eq, Structural)]
pub enum FractalType {
    Mandelbrot,
    Julia,
    BurningShip,
    Phoenix,
}

#[derive(Debug, Clone, Copy, PartialEq, Eq, Structural)]
pub enum GradientType {
    Linear,
    Radial,
    Spiral,
    Wave,
}

#[derive(Debug, Clone)]
pub struct ColorScheme {
    pub name: String,
    pub colors: Vec<[u8; 3]>,
    pub gradient_type: GradientType,
}

impl ColorScheme {
    /// A scheme holds at least two gradient stops; the bounds keep every
    /// index computation small.
    pub open spec fn wf(&self) -> bool {
        &&& 2 <= self.colors@.len() <= 16
        &&& self.name@.len() <= 64
    }
}

/// One candidate image's full parameter set. The continuous fields are in
/// thousandths: `zoom_milli == 1500` stands for a zoom factor of 1.5.
#[derive(Debug, Clone)]
pub struct FractalConfig {
    pub fractal_type: FractalType,
    pub color_scheme: ColorScheme,
    pub iterations: u32,
    pub zoom_milli: u32,
    pub offset_x_milli: i32,
    pub offset_y_milli: i32,
    pub rotation_milli: u32,
    pub complexity_milli: u32,
}

impl FractalConfig {
    /// The sampled ranges: iteration cap in [50,200), zoom in [0.5,4.0),
    /// offsets in [-2.0,2.0), rotation in [0,2*pi), complexity in [0.1,2.0).
    pub open spec fn wf(&self) -> bool {
        &&& self.color_scheme.wf()
        &&& 50 <= self.iterations < 200
        &&& 500 <= self.zoom_milli < 4000
        &&& -2000 <= self.offset_x_milli < 2000
        &&& -2000 <= self.offset_y_milli < 2000
        &&& self.rotation_milli < 6283
        &&& 100 <= self.complexity_milli < 2000
    }
}

/// One catalog entry pinned down: its name, its four gradient stops and
/// its gradient mode.
pub open spec fn spec_catalog_entry(
    s: ColorScheme,
    name: Seq<char>,
    c0: [u8; 3],
    c1: [u8; 3],
    c2: [u8; 3],
    c3: [u8; 3],
    g: GradientType,
) -> bool {
    &&& s.name@ == name
    &&& s.gradient_type == g
    &&& s.colors@ =~= seq![c0, c1, c2, c3]
}

/// Membership in the fixed catalog: the scheme is, field for field, one
/// of its eight entries.
pub open spec fn spec_in_catalog(s: ColorScheme) -> bool {
    ||| spec_catalog_entry(
        s,
        "Cosmic Purple"@,
        [25u8, 25u8, 112u8],
        [138u8, 43u8, 226u8],
        [255u8, 20u8, 147u8],
        [255u8, 215u8, 0u8],
        GradientType::Radial,
    )
    ||| spec_catalog_entry(
        s,
        "Ocean Depths"@,
        [0u8, 20u8, 40u8],
        [0u8, 100u8, 150u8],
        [0u8, 191u8, 255u8],
        [135u8, 206u8, 235u8],
        GradientType::Linear,
    )
    ||| spec_catalog_entry(
        s,
        "Fire Storm"@,
        [139u8, 0u8, 0u8],
        [255u8, 69u8, 0u8],
        [255u8, 140u8, 0u8],
        [255u8, 255u8, 0u8],
        GradientType::Spiral,
    )
    ||| spec_catalog_entry(
        s,
        "Forest Mystique"@,
        [0u8, 50u8, 0u8],
        [34u8, 139u8, 34u8],
        [50u8, 205u8, 50u8],
        [144u8, 238u8, 144u8],
        GradientType::Wave,
    )
    ||| spec_catalog_entry(
        s,
        "Arctic Aurora"@,
        [25u8, 25u8, 112u8],
        [0u8, 255u8, 127u8],
        [64u8, 224u8, 208u8],
        [240u8, 248u8, 255u8],
        GradientType::Radial,
    )
    ||| spec_catalog_entry(
        s,
        "Sunset Blaze"@,
        [75u8, 0u8, 130u8],
        [255u8, 20u8, 147u8],
        [255u8, 165u8, 0u8],
        [255u8, 255u8, 224u8],
        GradientType::Linear,
    )
    ||| spec_catalog_entry(
        s,
        "Neon Dreams"@,
        [0u8, 0u8, 0u8],
        [255u8, 0u8, 255u8],
        [0u8, 255u8, 255u8],
        [255u8, 255u8, 255u8],
        GradientType::Spiral,
    )
    ||| spec_catalog_entry(
        s,
        "Golden Horizon"@,
        [139u8, 69u8, 19u8],
        [218u8, 165u8, 32u8],
        [255u8, 215u8, 0u8],
        [255u8, 248u8, 220u8],
        GradientType::Wave,
    )
}

impl FractalConfig {
    /// The fixed eight-entry color-scheme catalog.
    pub fn get_color_schemes() -> (r: Vec<ColorScheme>)
        ensures
            r@.len() == 8,
            forall|i: int| 0 <= i < 8 ==> (#[trigger] r@[i]).wf(),
            spec_catalog_entry(
                r@[0],
                "Cosmic Purple"@,
                [25u8, 25u8, 112u8],
                [138u8, 43u8, 226u8],
                [255u8, 20u8, 147u8],
                [255u8, 215u8, 0u8],
                GradientType::Radial,
            ),
            spec_catalog_entry(
                r@[1],
                "Ocean Depths"@,
                [0u8, 20u8, 40u8],
                [0u8, 100u8, 150u8],
                [0u8, 191u8, 255u8],
                [135u8, 206u8, 235u8],
                GradientType::Linear,
            ),
            spec_catalog_entry(
                r@[2],
                "Fire Storm"@,
                [139u8, 0u8, 0u8],
                [255u8, 69u8, 0u8],
                [255u8, 140u8, 0u8],
                [255u8, 255u8, 0u8],
                GradientType::Spiral,
            ),
            spec_catalog_entry(
                r@[3],
                "Forest Mystique"@,
                [0u8, 50u8, 0u8],
                [34u8, 139u8, 34u8],
                [50u8, 205u8, 50u8],
                [144u8, 238u8, 144u8],
                GradientType::Wave,
            ),
            spec_catalog_entry(
                r@[4],
                "Arctic Aurora"@,
                [25u8, 25u8, 112u8],
                [0u8, 255u8, 127u8],
                [64u8, 224u8, 208u8],
                [240u8, 248u8, 255u8],
                GradientType::Radial,
            ),
            spec_catalog_entry(
                r@[5],
                "Sunset Blaze"@,
                [75u8, 0u8, 130u8],
                [255u8, 20u8, 147u8],
                [255u8, 165u8, 0u8],
                [255u8, 255u8, 224u8],
                GradientType::Linear,
            ),
            spec_catalog_entry(
                r@[6],
                "Neon Dreams"@,
                [0u8, 0u8, 0u8],
                [255u8, 0u8, 255u8],
                [0u8, 255u8, 255u8],
                [255u8, 255u8, 255u8],
                GradientType::Spiral,
            ),
            spec_catalog_entry(
                r@[7],
                "Golden Horizon"@,
                [139u8, 69u8, 19u8],
                [218u8, 165u8, 32u8],
                [255u8, 215u8, 0u8],
                [255u8, 248u8, 220u8],
                GradientType::Wave,
            ),
    {
        proof {
            reveal_strlit("Cosmic Purple");
            reveal_strlit("Ocean Depths");
            reveal_strlit("Fire Storm");
            reveal_strlit("Forest Mystique");
            reveal_strlit("Arctic Aurora");
            reveal_strlit("Sunset Blaze");
            reveal_strlit("Neon Dreams");
            reveal_strlit("Golden Horizon");
        }
        let schemes: Vec<ColorScheme> = vec![
            ColorScheme {
                name: "Cosmic Purple".to_owned(),
                colors: vec![[25, 25, 112], [138, 43, 226], [255, 20, 147], [255, 215, 0]],
                gradient_type: GradientType::Radial,
            },
            ColorScheme {
                name: "Ocean Depths".to_owned(),
                colors: vec![[0, 20, 40], [0, 100, 150], [0, 191, 255], [135, 206, 235]],
                gradient_type: GradientType::Linear,
            },
            ColorScheme {
                name: "Fire Storm".to_owned(),
                colors: vec![[139, 0, 0], [255, 69, 0], [255, 140, 0], [255, 255, 0]],
                gradient_type: GradientType::Spiral,
            },
            ColorScheme {
                name: "Forest Mystique".to_owned(),
                colors: vec![[0, 50, 0], [34, 139, 34], [50, 205, 50], [144, 238, 144]],
                gradient_type: GradientType::Wave,
            },
            ColorScheme {
                name: "Arctic Aurora".to_owned(),
                colors: vec![[25, 25, 112], [0, 255, 127], [64, 224, 208], [240, 248, 255]],
                gradient_type: GradientType::Radial,
            },
            ColorScheme {
                name: "Sunset Blaze".to_owned(),
                colors: vec![[75, 0, 130], [255, 20, 147], [255, 165, 0], [255, 255, 224]],
                gradient_type: GradientType::Linear,
            },
            ColorScheme {
                name: "Neon Dreams".to_owned(),
                colors: vec![[0, 0, 0], [255, 0, 255], [0, 255, 255], [255, 255, 255]],
                gradient_type: GradientType::Spiral,
            },
            ColorScheme {
                name: "Golden Horizon".to_owned(),
                colors: vec![[139, 69, 19], [218, 165, 32], [255, 215, 0], [255, 248, 220]],
                gradient_type: GradientType::Wave,
            },
        ];
        schemes
    }

    /// Draw one bounded parameter set: the variant and scheme uniformly
    /// from their catalogs, each numeric knob uniformly from its range.
    /// Whatever the generator returns, the result is well formed and its
    /// color scheme is one of the eight fixed catalog entries.
    pub fn random(rng: &mut rand::rngs::StdRng) -> (c: FractalConfig)
        ensures
            c.wf(),
            spec_in_catalog(c.color_scheme),
    {
        let ft = match crate::rng::rng_range(rng, 0, 4) {
            0 => FractalType::Mandelbrot,
            1 => FractalType::Julia,
            2 => FractalType::BurningShip,
            _ => FractalType::Phoenix,
        };
        let mut schemes = Self::get_color_schemes();
        let si = crate::rng::rng_range(rng, 0, 8) as usize;
        let scheme = schemes.remove(si);
        proof {
            assert(spec_in_catalog(scheme));
        }
        let iterations = crate::rng::rng_range(rng, 50, 200) as u32;
        let zoom_milli = crate::rng::rng_range(rng, 500, 4000) as u32;
        let offset_x_milli = (crate::rng::rng_range(rng, 0, 4000) as i32) - 2000;
        let offset_y_milli = (crate::rng::rng_range(rng, 0, 4000) as i32) - 2000;
        let rotation_milli = crate::rng::rng_range(rng, 0, 6283) as u32;
        let complexity_milli = crate::rng::rng_range(rng, 100, 2000) as u32;
        FractalConfig {
            fractal_type: ft,
            color_scheme: scheme,
            iterations,
            zoom_milli,
            offset_x_milli,
            offset_y_milli,
            rotation_milli,
            complexity_milli,
        }
    }
}

pub open spec fn spec_abs(a: int) -> int {
    if a >= 0 {
        a
    } else {
        -a
    }
}

/// The real-part update of one escape-time step, in thousandths.
pub open spec fn spec_step_x(
    ft: FractalType,
    x: int,
    y: int,
    px: int,
    cre: int,
    cc: int,
) -> int {
    match ft {
        FractalType::Phoenix => tdiv(x * x - y * y, 1000) + cre + tdiv(cc * px, 1000),
        _ => tdiv(x * x - y * y, 1000) + cre,
    }
}

/// The imaginary-part update of one escape-time step, in thousandths.
pub open spec fn spec_step_y(ft: FractalType, x: int, y: int, cim: int) -> int {
    match ft {
        FractalType::BurningShip => tdiv(2 * (spec_abs(x) * spec_abs(y)), 1000) + cim,
        _ => tdiv(2 * (x * y), 1000) + cim,
    }
}

/// Number of escape-time steps taken before the squared modulus exceeds
/// 4.0 (4_000_000 in milli-squared units), capped at `fuel`.
pub open spec fn spec_escape(
    ft: FractalType,
    cre: int,
    cim: int,
    cc: int,
    x: int,
    y: int,
    px: int,
    fuel: nat,
) -> nat
    decreases fuel,
{
    if fuel == 0 {
        0
    } else if x * x + y * y > 4000000 {
        0
    } else {
        let xn = spec_step_x(ft, x, y, px, cre, cc);
        let yn = spec_step_y(ft, x, y, cim);
        1 + spec_escape(ft, cre, cim, cc, xn, yn, x, (fuel - 1) as nat)
    }
}

fn abs_i64(a: i64) -> (r: i64)
    requires
        a > i64::MIN,
    ensures
        r == spec_abs(a as int),
{
    if a >= 0 {
        a
    } else {
        -a
    }
}

fn step_x(ft: FractalType, x: i64, y: i64, px: i64, cre: i64, cc: i64) -> (r: i64)
    requires
        -2000 <= x <= 2000,
        -2000 <= y <= 2000,
        -2000 <= px <= 2000,
        -70_000_000 <= cre <= 70_000_000,
        0 <= cc <= 1000,
    ensures
        r == spec_step_x(ft, x as int, y as int, px as int, cre as int, cc as int),
        -70_010_000 <= r <= 70_010_000,
{
    proof {
        assert(0 <= x * x <= 4_000_000 && 0 <= y * y <= 4_000_000) by (nonlinear_arith)
            requires
                -2000 <= x <= 2000,
                -2000 <= y <= 2000,
        ;
        lemma_tdiv_bound(x * x - y * y, 1000, 4000);
        assert(-2_000_000 <= cc * px <= 2_000_000) by (nonlinear_arith)
            requires
                -2000 <= px <= 2000,
                0 <= cc <= 1000,
        ;
        lemma_tdiv_bound(cc * px, 1000, 2000);
    }
    match ft {
        FractalType::Phoenix => div_trunc(x * x - y * y, 1000) + cre + div_trunc(cc * px, 1000),
        _ => div_trunc(x * x - y * y, 1000) + cre,
    }
}

fn step_y(ft: FractalType, x: i64, y: i64, cim: i64) -> (r: i64)
    requires
        -2000 <= x <= 2000,
        -2000 <= y <= 2000,
        -70_000_000 <= cim <= 70_000_000,
    ensures
        r == spec_step_y(ft, x as int, y as int, cim as int),
        -70_010_000 <= r <= 70_010_000,
{
    proof {
        assert(-4_000_000 <= x * y <= 4_000_000) by (nonlinear_arith)
            requires
                -2000 <= x <= 2000,
                -2000 <= y <= 2000,
        ;
        lemma_tdiv_bound(2 * (x * y), 1000, 8000);
    }
    match ft {
        FractalType::BurningShip => {
            let ax = abs_i64(x);
            let ay = abs_i64(y);
            proof {
                assert(0 <= ax * ay <= 4_000_000) by (nonlinear_arith)
                    requires
                        0 <= ax <= 2000,
                        0 <= ay <= 2000,
                ;
                lemma_tdiv_bound(2 * (ax * ay), 1000, 8000);
            }
            div_trunc(2 * (ax * ay), 1000) + cim
        },
        _ => div_trunc(2 * (x * y), 1000) + cim,
    }
}

/// Run the selected escape-time recurrence from `(x0, y0)` with additive
/// constant `(cre, cim)` and memory coefficient `cc` (Phoenix only), for at
/// most `max_iter` steps.
fn escape_steps(
    ft: FractalType,
    cre: i64,
    cim: i64,
    cc: i64,
    x0: i64,
    y0: i64,
    max_iter: u32,
) -> (n: u32)
    requires
        -70_000_000 <= cre <= 70_000_000,
        -70_000_000 <= cim <= 70_000_000,
        0 <= cc <= 1000,
        -70_000_000 <= x0 <= 70_000_000,
        -70_000_000 <= y0 <= 70_000_000,
    ensures
        n as nat == spec_escape(
            ft,
            cre as int,
            cim as int,
            cc as int,
            x0 as int,
            y0 as int,
            0,
            max_iter as nat,
        ),
        n <= max_iter,
{
    let mut x: i64 = x0;
    let mut y: i64 = y0;
    let mut px: i64 = 0;
    let mut iter: u32 = 0;
    proof {
        assert(0 <= x * x <= 4_901_400_100_000_000i64 && 0 <= y * y <= 4_901_400_100_000_000i64)
            by (nonlinear_arith)
            requires
                -70_010_000 <= x <= 70_010_000,
                -70_010_000 <= y <= 70_010_000,
        ;
    }
    let mut s: i64 = x * x + y * y;
    while s <= 4_000_000 && iter < max_iter
        invariant
            -70_010_000 <= x <= 70_010_000,
            -70_010_000 <= y <= 70_010_000,
            -2000 <= px <= 2000,
            -70_000_000 <= cre <= 70_000_000,
            -70_000_000 <= cim <= 70_000_000,
            0 <= cc <= 1000,
            iter <= max_iter,
            s == x * x + y * y,
            s >= 0,
            spec_escape(
                ft,
                cre as int,
                cim as int,
                cc as int,
                x0 as int,
                y0 as int,
                0,
                max_iter as nat,
            ) == iter + spec_escape(
                ft,
                cre as int,
                cim as int,
                cc as int,
                x as int,
                y as int,
                px as int,
                (max_iter - iter) as nat,
            ),
        decreases max_iter - iter,
    {
        proof {
            assert(-2000 <= x <= 2000 && -2000 <= y <= 2000) by (nonlinear_arith)
                requires
                    x * x + y * y <= 4_000_000,
            ;
        }
        let xn = step_x(ft, x, y, px, cre, cc);
        let yn = step_y(ft, x, y, cim);
        px = x;
        x = xn;
        y = yn;
        iter = iter + 1;
        proof {
            assert(0 <= x * x <= 4_901_400_100_000_000i64 && 0 <= y * y
                <= 4_901_400_100_000_000i64) by (nonlinear_arith)
                requires
                    -70_010_000 <= x <= 70_010_000,
                    -70_010_000 <= y <= 70_010_000,
            ;
        }
        s = x * x + y * y;
    }
    proof {
        if iter == max_iter {
            assert(spec_escape(
                ft,
                cre as int,
                cim as int,
                cc as int,
                x as int,
                y as int,
                px as int,
                0,
            ) == 0);
        } else {
            assert(s > 4_000_000);
            assert(spec_escape(
                ft,
                cre as int,
                cim as int,
                cc as int,
                x as int,
                y as int,
                px as int,
                (max_iter - iter) as nat,
            ) == 0);
        }
    }
    iter
}

/// The Julia constant's real part, derived from the complexity knob.
pub open spec fn spec_julia_cre(complexity: int) -> int {
    -700 + (complexity * 300) / 1000
}

/// The Julia constant's imaginary part, derived from the complexity knob.
pub open spec fn spec_julia_cim(complexity: int) -> int {
    270 + (complexity * 100) / 1000
}

/// The Phoenix memory coefficient, derived from the complexity knob.
pub open spec fn spec_phoenix_c(complexity: int) -> int {
    567 + (complexity * 200) / 1000
}

/// Escape count for one plane point under the selected variant, the
/// single definition the rasterizer's pixels are stated against.
pub open spec fn spec_variant_iters(
    ft: FractalType,
    re: int,
    im: int,
    max_iter: nat,
    complexity: int,
) -> nat {
    match ft {
        FractalType::Mandelbrot => spec_escape(ft, re, im, 0, 0, 0, 0, max_iter),
        FractalType::Julia => spec_escape(
            ft,
            spec_julia_cre(complexity),
            spec_julia_cim(complexity),
            0,
            re,
            im,
            0,
            max_iter,
        ),
        FractalType::BurningShip => spec_escape(ft, re, im, 0, 0, 0, 0, max_iter),
        FractalType::Phoenix => spec_escape(ft, re, im, spec_phoenix_c(complexity), 0, 0, 0, max_iter),
    }
}

pub struct FractalGenerator;

impl FractalGenerator {
    /// Mandelbrot escape count for the plane point `(cx, cy)` (thousandths).
    pub fn mandelbrot(cx: i64, cy: i64, max_iter: u32) -> (n: u32)
        requires
            -70_000_000 <= cx <= 70_000_000,
            -70_000_000 <= cy <= 70_000_000,
        ensures
            n as nat == spec_escape(
                FractalType::Mandelbrot,
                cx as int,
                cy as int,
                0,
                0,
                0,
                0,
                max_iter as nat,
            ),
            n <= max_iter,
    {
        escape_steps(FractalType::Mandelbrot, cx, cy, 0, 0, 0, max_iter)
    }

    /// Julia escape count: the plane point is the initial value and the
    /// additive constant is derived from the complexity knob.
    pub fn julia(x: i64, y: i64, max_iter: u32, complexity_milli: u32) -> (n: u32)
        requires
            -70_000_000 <= x <= 70_000_000,
            -70_000_000 <= y <= 70_000_000,
            complexity_milli < 2000,
        ensures
            n as nat == spec_variant_iters(
                FractalType::Julia,
                x as int,
                y as int,
                max_iter as nat,
                complexity_milli as int,
            ),
            n <= max_iter,
    {
        let cre: i64 = -700 + ((complexity_milli * 300) / 1000) as i64;
        let cim: i64 = 270 + ((complexity_milli * 100) / 1000) as i64;
        escape_steps(FractalType::Julia, cre, cim, 0, x, y, max_iter)
    }

    /// Burning Ship escape count: as Mandelbrot, with absolute values taken
    /// before the imaginary-part product.
    pub fn burning_ship(cx: i64, cy: i64, max_iter: u32) -> (n: u32)
        requires
            -70_000_000 <= cx <= 70_000_000,
            -70_000_000 <= cy <= 70_000_000,
        ensures
            n as nat == spec_escape(
                FractalType::BurningShip,
                cx as int,
                cy as int,
                0,
                0,
                0,
                0,
                max_iter as nat,
            ),
            n <= max_iter,
    {
        escape_steps(FractalType::BurningShip, cx, cy, 0, 0, 0, max_iter)
    }

    /// Phoenix escape count: adds a memory term fed by the previous real
    /// part, weighted by a complexity-derived coefficient.
    pub fn phoenix(cx: i64, cy: i64, max_iter: u32, complexity_milli: u32) -> (n: u32)
        requires
            -70_000_000 <= cx <= 70_000_000,
            -70_000_000 <= cy <= 70_000_000,
            complexity_milli < 2000,
        ensures
            n as nat == spec_variant_iters(
                FractalType::Phoenix,
                cx as int,
                cy as int,
                max_iter as nat,
                complexity_milli as int,
            ),
            n <= max_iter,
    {
        let cc: i64 = 567 + ((complexity_milli * 200) / 1000) as i64;
        escape_steps(FractalType::Phoenix, cx, cy, cc, 0, 0, max_iter)
    }

    /// Dispatch on the variant tag.
    pub fn calculate_fractal(
        fractal_type: FractalType,
        x: i64,
        y: i64,
        max_iter: u32,
        complexity_milli: u32,
    ) -> (n: u32)
        requires
            -70_000_000 <= x <= 70_000_000,
            -70_000_000 <= y <= 70_000_000,
            complexity_milli < 2000,
        ensures
            n as nat == spec_variant_iters(
                fractal_type,
                x as int,
                y as int,
                max_iter as nat,
                complexity_milli as int,
            ),
            n <= max_iter,
    {
        match fractal_type {
            FractalType::Mandelbrot => Self::mandelbrot(x, y, max_iter),
            FractalType::Julia => Self::julia(x, y, max_iter, complexity_milli),
            FractalType::BurningShip => Self::burning_ship(x, y, max_iter),
            FractalType::Phoenix => Self::phoenix(x, y, max_iter, complexity_milli),
        }
    }
}

/// The gradient-mode transform of the normalized escape value `t`
/// (thousandths): linear keeps it, radial scales it up toward the image
/// corners, spiral shifts it by the angle around the center, wave shifts
/// it by a sine of the pixel coordinates.
pub open spec fn spec_modified_t(
    scheme: ColorScheme,
    t: int,
    x: int,
    y: int,
    w: int,
    h: int,
) -> int
    recommends
        0 <= t <= 1000,
        0 <= x < w,
        0 <= y < h,
{
    match scheme.gradient_type {
        GradientType::Linear => t,
        GradientType::Radial => {
            let dx = x - w / 2;
            let dy = y - h / 2;
            let dist = spec_isqrt((dx * dx + dy * dy) as nat) as int;
            let maxd = spec_isqrt(((w / 2) * (w / 2) + (h / 2) * (h / 2)) as nat) as int;
            if maxd == 0 {
                t
            } else {
                (t * (1000 + (500 * dist) / maxd)) / 1000
            }
        },
        GradientType::Spiral => {
            let dx = x - w / 2;
            let dy = y - h / 2;
            let angle = ((spec_atan2_milli(dy, dx) + 3141) * 1000) / 6283;
            (t + (angle * 300) / 1000) % 1000
        },
        GradientType::Wave => {
            let wave = tdiv(spec_sin_milli(20 * x + 20 * y) * 200, 1000);
            if t + wave < 0 {
                0
            } else if t + wave > 1000 {
                1000
            } else {
                t + wave
            }
        },
    }
}

fn modified_t(scheme: &ColorScheme, t: u64, x: u32, y: u32, w: u32, h: u32) -> (m: u64)
    requires
        t <= 1000,
        x < w,
        y < h,
        w <= 4096,
        h <= 4096,
    ensures
        m == spec_modified_t(*scheme, t as int, x as int, y as int, w as int, h as int),
        m <= 1500,
{
    match scheme.gradient_type {
        GradientType::Linear => t,
        GradientType::Radial => {
            let dx: i64 = x as i64 - (w / 2) as i64;
            let dy: i64 = y as i64 - (h / 2) as i64;
            proof {
                assert(0 <= dx * dx <= 16_777_216 && 0 <= dy * dy <= 16_777_216)
                    by (nonlinear_arith)
                    requires
                        -4096 <= dx <= 4096,
                        -4096 <= dy <= 4096,
                ;
            }
            let dist: u64 = crate::fixed::isqrt64((dx * dx + dy * dy) as u64);
            let hw: u64 = (w / 2) as u64;
            let hh: u64 = (h / 2) as u64;
            proof {
                assert(hw * hw <= 4_194_304 && hh * hh <= 4_194_304 && dx * dx <= hw * hw && dy
                    * dy <= hh * hh) by (nonlinear_arith)
                    requires
                        -(hw as int) <= dx <= hw,
                        -(hh as int) <= dy <= hh,
                        hw <= 2048,
                        hh <= 2048,
                ;
                crate::fixed::lemma_isqrt_mono(
                    (dx * dx + dy * dy) as nat,
                    (hw * hw + hh * hh) as nat,
                );
            }
            let maxd: u64 = crate::fixed::isqrt64(hw * hw + hh * hh);
            if maxd == 0 {
                t
            } else {
                proof {
                    assert(maxd <= 2896) by (nonlinear_arith)
                        requires
                            maxd * maxd <= 8_388_608,
                    ;
                    vstd::arithmetic::div_mod::lemma_fundamental_div_mod(
                        500 * (dist as int),
                        maxd as int,
                    );
                    assert((500 * (dist as int)) / (maxd as int) <= 500) by (nonlinear_arith)
                        requires
                            maxd > 0,
                            dist <= maxd,
                            500 * (dist as int) == (maxd as int) * ((500 * (dist as int)) / (
                            maxd as int)) + (500 * (dist as int)) % (maxd as int),
                            0 <= (500 * (dist as int)) % (maxd as int),
                    ;
                }
                let factor: u64 = 1000 + (500 * dist) / maxd;
                proof {
                    assert(t * factor <= 1_500_000) by (nonlinear_arith)
                        requires
                            t <= 1000,
                            factor <= 1500,
                    ;
                }
                (t * factor) / 1000
            }
        },
        GradientType::Spiral => {
            let dx: i64 = x as i64 - (w / 2) as i64;
            let dy: i64 = y as i64 - (h / 2) as i64;
            let a: i64 = crate::fixed::atan2_milli(dy, dx);
            let angle: u64 = (((a + 3141) as u64) * 1000) / 6283;
            (t + (angle * 300) / 1000) % 1000
        },
        GradientType::Wave => {
            let arg: u64 = 20 * (x as u64) + 20 * (y as u64);
            let sv: i64 = crate::fixed::sin_milli(arg);
            let wv: i64 = div_trunc(sv * 200, 1000);
            proof {
                lemma_tdiv_bound(sv * 200, 1000, 200);
            }
            let sum: i64 = t as i64 + wv;
            if sum < 0 {
                0
            } else if sum > 1000 {
                1000
            } else {
                sum as u64
            }
        },
    }
}

/// Linear interpolation of one color channel, in thousandths.
pub open spec fn spec_blend_channel(c1: int, c2: int, frac: int) -> int {
    c1 + tdiv((c2 - c1) * frac, 1000)
}

fn blend_channel(c1: u8, c2: u8, frac: u64) -> (r: u8)
    requires
        frac < 1000,
    ensures
        r as int == spec_blend_channel(c1 as int, c2 as int, frac as int),
{
    let d: i64 = c2 as i64 - c1 as i64;
    let f: i64 = frac as i64;
    proof {
        assert(-255_000 <= d * f <= 255_000) by (nonlinear_arith)
            requires
                -255 <= d <= 255,
                0 <= f < 1000,
        ;
        lemma_tdiv_bound(d * f, 1000, 255);
        crate::fixed::lemma_tdiv_sign(d * f, 1000);
        if d >= 0 {
            assert(0 <= d * f <= d * 1000) by (nonlinear_arith)
                requires
                    d >= 0,
                    0 <= f < 1000,
            ;
            lemma_tdiv_bound(d * f, 1000, d as int);
        } else {
            assert(d * 1000 <= d * f <= 0) by (nonlinear_arith)
                requires
                    d < 0,
                    0 <= f < 1000,
            ;
            lemma_tdiv_bound(d * f, 1000, -(d as int));
        }
    }
    let q: i64 = div_trunc(d * f, 1000);
    (c1 as i64 + q) as u8
}

/// The color of one pixel, as the original escape count, the iteration
/// cap and the pixel position determine it. Escape counts at the cap are
/// painted black; all others pass through the gradient transform and a
/// per-channel linear blend between the two adjacent color stops.
pub open spec fn spec_get_color(
    scheme: ColorScheme,
    n: int,
    max_iter: int,
    x: int,
    y: int,
    w: int,
    h: int,
) -> (u8, u8, u8)
    recommends
        scheme.wf(),
        max_iter >= 1,
        0 <= n <= max_iter,
        0 <= x < w,
        0 <= y < h,
{
    if n >= max_iter {
        (0u8, 0u8, 0u8)
    } else {
        let t = (1000 * n) / max_iter;
        let m = spec_modified_t(scheme, t, x, y, w, h);
        spec_stop_color(scheme, m)
    }
}

/// The color the gradient assigns to a transformed escape value `m`
/// (thousandths): the blend between the two stops that bracket
/// `m * (stops - 1)`, clamped to the last stop.
pub open spec fn spec_stop_color(scheme: ColorScheme, m: int) -> (u8, u8, u8)
    recommends
        scheme.wf(),
        0 <= m,
{
    let count = scheme.colors@.len() as int;
    let scaled = if m * (count - 1) > 1000 * (count - 1) {
        1000 * (count - 1)
    } else {
        m * (count - 1)
    };
    let index = scaled / 1000;
    let frac = scaled % 1000;
    if index >= count - 1 {
        let c = scheme.colors@[count - 1];
        (c[0], c[1], c[2])
    } else {
        let c1 = scheme.colors@[index];
        let c2 = scheme.colors@[index + 1];
        (
            spec_blend_channel(c1[0] as int, c2[0] as int, frac) as u8,
            spec_blend_channel(c1[1] as int, c2[1] as int, frac) as u8,
            spec_blend_channel(c1[2] as int, c2[2] as int, frac) as u8,
        )
    }
}

/// Gradient boundary: a transformed escape value of exactly 0 takes the
/// first gradient stop, and exactly 1.0 (1000 in thousandths) takes the
/// last stop — in particular for a two-stop scheme, whose only stops
/// those are. Under the linear mode the transformed value is the
/// normalized escape value itself, so an escape value of 0 paints the
/// first stop.
pub proof fn lemma_gradient_boundary(scheme: ColorScheme, max_iter: int, x: int, y: int, w: int, h: int)
    requires
        scheme.wf(),
        max_iter >= 1,
    ensures
        spec_stop_color(scheme, 0) == (
            scheme.colors@[0][0],
            scheme.colors@[0][1],
            scheme.colors@[0][2],
        ),
        spec_stop_color(scheme, 1000) == (
            scheme.colors@[scheme.colors@.len() - 1][0],
            scheme.colors@[scheme.colors@.len() - 1][1],
            scheme.colors@[scheme.colors@.len() - 1][2],
        ),
        scheme.gradient_type is Linear ==> spec_get_color(scheme, 0, max_iter, x, y, w, h) == (
            scheme.colors@[0][0],
            scheme.colors@[0][1],
            scheme.colors@[0][2],
        ),
{
    let count = scheme.colors@.len() as int;
    vstd::arithmetic::div_mod::lemma_fundamental_div_mod_converse(0, 1000, 0, 0);
    vstd::arithmetic::div_mod::lemma_fundamental_div_mod_converse(
        1000 * (count - 1),
        1000,
        count - 1,
        0,
    );
    assert(spec_stop_color(scheme, 0) == (
        scheme.colors@[0][0],
        scheme.colors@[0][1],
        scheme.colors@[0][2],
    )) by {
        assert(0 * (count - 1) == 0);
        assert(spec_blend_channel(scheme.colors@[0][0] as int, scheme.colors@[1][0] as int, 0)
            == scheme.colors@[0][0]);
        assert(spec_blend_channel(scheme.colors@[0][1] as int, scheme.colors@[1][1] as int, 0)
            == scheme.colors@[0][1]);
        assert(spec_blend_channel(scheme.colors@[0][2] as int, scheme.colors@[1][2] as int, 0)
            == scheme.colors@[0][2]);
    }
    assert((1000 * (count - 1)) / 1000 == count - 1);
    vstd::arithmetic::div_mod::lemma_fundamental_div_mod_converse(0, max_iter, 0, 0);
    assert((1000int * 0int) / max_iter == 0int);
}

impl FractalGenerator {
    /// Map one pixel's escape count to its RGB color.
    pub fn get_color(
        scheme: &ColorScheme,
        iterations: u32,
        max_iter: u32,
        x: u32,
        y: u32,
        width: u32,
        height: u32,
    ) -> (c: [u8; 3])
        requires
            scheme.wf(),
            max_iter >= 1,
            iterations <= max_iter,
            x < width,
            y < height,
            width <= 4096,
            height <= 4096,
        ensures
            ({
                let col = spec_get_color(
                    *scheme,
                    iterations as int,
                    max_iter as int,
                    x as int,
                    y as int,
                    width as int,
                    height as int,
                );
                c[0] == col.0 && c[1] == col.1 && c[2] == col.2
            }),
    {
        if iterations >= max_iter {
            return [0, 0, 0];
        }
        let t: u64 = (1000 * iterations as u64) / (max_iter as u64);
        proof {
            vstd::arithmetic::div_mod::lemma_fundamental_div_mod(
                1000 * (iterations as int),
                max_iter as int,
            );
            assert((1000 * (iterations as int)) / (max_iter as int) <= 1000) by (nonlinear_arith)
                requires
                    max_iter > 0,
                    iterations <= max_iter,
                    1000 * (iterations as int) == (max_iter as int) * ((1000 * (iterations as int))
                        / (max_iter as int)) + (1000 * (iterations as int)) % (max_iter as int),
                    0 <= (1000 * (iterations as int)) % (max_iter as int),
            ;
        }
        let m: u64 = modified_t(scheme, t, x, y, width, height);
        let count: usize = scheme.colors.len();
        let cm1: u64 = (count - 1) as u64;
        proof {
            assert(m * cm1 <= 1500 * 15) by (nonlinear_arith)
                requires
                    m <= 1500,
                    cm1 <= 15,
            ;
        }
        let scaled_raw: u64 = m * cm1;
        let cap: u64 = 1000 * cm1;
        let scaled: u64 = if scaled_raw > cap {
            cap
        } else {
            scaled_raw
        };
        let index: usize = (scaled / 1000) as usize;
        let frac: u64 = scaled % 1000;
        if index >= count - 1 {
            let c = scheme.colors[count - 1];
            c
        } else {
            let c1 = scheme.colors[index];
            let c2 = scheme.colors[index + 1];
            [
                blend_channel(c1[0], c2[0], frac),
                blend_channel(c1[1], c2[1], frac),
                blend_channel(c1[2], c2[2], frac),
            ]
        }
    }
}

/// A rendered image: `width * height` RGB pixels in row-major order,
/// three bytes per pixel.
pub struct PixelGrid {
    pub width: u32,
    pub height: u32,
    pub data: Vec<u8>,
}

impl PixelGrid {
    pub open spec fn wf(&self) -> bool {
        self.data@.len() == 3 * self.width * self.height
    }

    /// The RGB triple stored for pixel `(x, y)`.
    pub open spec fn pixel(&self, x: int, y: int) -> (u8, u8, u8)
        recommends
            self.wf(),
            0 <= x < self.width,
            0 <= y < self.height,
    {
        let base = 3 * (y * self.width + x);
        (self.data@[base], self.data@[base + 1], self.data@[base + 2])
    }
}

pub open spec fn spec_min_dim(w: int, h: int) -> int {
    if w <= h {
        w
    } else {
        h
    }
}

/// The unrotated plane coordinate of a pixel column: the pixel offset from
/// the image center, scaled by 4.0 / (min(w,h) * zoom), plus the offset.
pub open spec fn spec_plane_re0(c: FractalConfig, w: int, h: int, x: int) -> int {
    tdiv((x - w / 2) * 4_000_000, spec_min_dim(w, h) * c.zoom_milli) + c.offset_x_milli
}

pub open spec fn spec_plane_im0(c: FractalConfig, w: int, h: int, y: int) -> int {
    tdiv((y - h / 2) * 4_000_000, spec_min_dim(w, h) * c.zoom_milli) + c.offset_y_milli
}

/// The plane point a pixel maps to, after the optional rotation about the
/// origin.
pub open spec fn spec_plane_re(c: FractalConfig, w: int, h: int, x: int, y: int) -> int {
    if c.rotation_milli == 0 {
        spec_plane_re0(c, w, h, x)
    } else {
        tdiv(
            spec_plane_re0(c, w, h, x) * spec_cos_milli(c.rotation_milli as int) - spec_plane_im0(
                c,
                w,
                h,
                y,
            ) * spec_sin_milli(c.rotation_milli as int),
            1000,
        )
    }
}

pub open spec fn spec_plane_im(c: FractalConfig, w: int, h: int, x: int, y: int) -> int {
    if c.rotation_milli == 0 {
        spec_plane_im0(c, w, h, y)
    } else {
        tdiv(
            spec_plane_re0(c, w, h, x) * spec_sin_milli(c.rotation_milli as int) + spec_plane_im0(
                c,
                w,
                h,
                y,
            ) * spec_cos_milli(c.rotation_milli as int),
            1000,
        )
    }
}

/// The color the rasterizer owes pixel `(x, y)`.
pub open spec fn spec_render_pixel(c: FractalConfig, w: int, h: int, x: int, y: int) -> (
    u8,
    u8,
    u8,
) {
    let n = spec_variant_iters(
        c.fractal_type,
        spec_plane_re(c, w, h, x, y),
        spec_plane_im(c, w, h, x, y),
        c.iterations as nat,
        c.complexity_milli as int,
    );
    spec_get_color(c.color_scheme, n as int, c.iterations as int, x, y, w, h)
}

/// Byte `i` of the rendered buffer: channel `i % 3` of the pixel at
/// row-major position `i / 3`.
pub open spec fn spec_render_byte(c: FractalConfig, w: int, h: int, i: int) -> u8 {
    let p = i / 3;
    let ch = i % 3;
    let col = spec_render_pixel(c, w, h, p % w, p / w);
    if ch == 0 {
        col.0
    } else if ch == 1 {
        col.1
    } else {
        col.2
    }
}

/// The full rendered buffer for a parameter set and image dimensions.
pub open spec fn spec_render_data(c: FractalConfig, w: int, h: int) -> Seq<u8> {
    Seq::new((3 * w * h) as nat, |i: int| spec_render_byte(c, w, h, i))
}

/// What it means for a grid to be the rendering of `c` at `w` by `h`.
pub open spec fn is_render_of(g: PixelGrid, c: FractalConfig, w: int, h: int) -> bool {
    &&& g.width == w
    &&& g.height == h
    &&& g.data@ == spec_render_data(c, w, h)
}

fn plane_point(config: &FractalConfig, width: u32, height: u32, x: u32, y: u32) -> (p: (i64, i64))
    requires
        config.wf(),
        x < width,
        y < height,
        width <= 4096,
        height <= 4096,
    ensures
        p.0 == spec_plane_re(*config, width as int, height as int, x as int, y as int),
        p.1 == spec_plane_im(*config, width as int, height as int, x as int, y as int),
        -70_000_000 <= p.0 <= 70_000_000,
        -70_000_000 <= p.1 <= 70_000_000,
{
    let minwh: i64 = if width <= height {
        width as i64
    } else {
        height as i64
    };
    proof {
        assert(500 <= minwh * (config.zoom_milli as i64) <= 16_384_000) by (nonlinear_arith)
            requires
                1 <= minwh <= 4096,
                500 <= config.zoom_milli < 4000,
        ;
    }
    let den: i64 = minwh * (config.zoom_milli as i64);
    let numx: i64 = (x as i64 - (width / 2) as i64) * 4_000_000;
    let numy: i64 = (y as i64 - (height / 2) as i64) * 4_000_000;
    proof {
        assert(-33_000_000 * den <= numx <= 33_000_000 * den && -33_000_000 * den <= numy
            <= 33_000_000 * den) by (nonlinear_arith)
            requires
                den >= 500,
                -16_384_000_000 <= numx <= 16_384_000_000,
                -16_384_000_000 <= numy <= 16_384_000_000,
        ;
        lemma_tdiv_bound(numx as int, den as int, 33_000_000);
        lemma_tdiv_bound(numy as int, den as int, 33_000_000);
    }
    let re0: i64 = div_trunc(numx, den) + config.offset_x_milli as i64;
    let im0: i64 = div_trunc(numy, den) + config.offset_y_milli as i64;
    if config.rotation_milli == 0 {
        (re0, im0)
    } else {
        let cosr: i64 = crate::fixed::cos_milli(config.rotation_milli as u64);
        let sinr: i64 = crate::fixed::sin_milli(config.rotation_milli as u64);
        proof {
            assert(-33_002_000_000 <= re0 * cosr <= 33_002_000_000 && -33_002_000_000 <= im0
                * sinr <= 33_002_000_000 && -33_002_000_000 <= re0 * sinr <= 33_002_000_000
                && -33_002_000_000 <= im0 * cosr <= 33_002_000_000) by (nonlinear_arith)
                requires
                    -33_002_000 <= re0 <= 33_002_000,
                    -33_002_000 <= im0 <= 33_002_000,
                    -1000 <= cosr <= 1000,
                    -1000 <= sinr <= 1000,
            ;
            lemma_tdiv_bound(re0 * cosr - im0 * sinr, 1000, 66_004_000);
            lemma_tdiv_bound(re0 * sinr + im0 * cosr, 1000, 66_004_000);
        }
        let re: i64 = div_trunc(re0 * cosr - im0 * sinr, 1000);
        let im: i64 = div_trunc(re0 * sinr + im0 * cosr, 1000);
        (re, im)
    }
}

impl FractalGenerator {
    /// Rasterize the full image: pure, total, and bit-identical on every
    /// run, as the single spec-level buffer definition in the contract
    /// states. The 4096-pixel ceiling is a machine limit of the exact
    /// fixed-point model — it keeps every plane-coordinate product within
    /// 64-bit range — not a bound the rendering itself needs.
    pub fn generate(config: &FractalConfig, width: u32, height: u32) -> (g: PixelGrid)
        requires
            config.wf(),
            1 <= width <= 4096,
            1 <= height <= 4096,
        ensures
            g.wf(),
            is_render_of(g, *config, width as int, height as int),
    {
        let ghost cfg = *config;
        let ghost w = width as int;
        let ghost h = height as int;
        let mut data: Vec<u8> = Vec::new();
        let mut yy: u32 = 0;
        while yy < height
            invariant
                config.wf(),
                cfg == *config,
                w == width as int,
                h == height as int,
                1 <= width <= 4096,
                1 <= height <= 4096,
                yy <= height,
                data@.len() == 3 * ((yy as int) * w),
                forall|i: int|
                    0 <= i < data@.len() ==> data@[i] == spec_render_byte(cfg, w, h, i),
            decreases height - yy,
        {
            let mut xx: u32 = 0;
            while xx < width
                invariant
                    config.wf(),
                    cfg == *config,
                    w == width as int,
                    h == height as int,
                    1 <= width <= 4096,
                    1 <= height <= 4096,
                    yy < height,
                    xx <= width,
                    data@.len() == 3 * ((yy as int) * w + xx as int),
                    forall|i: int|
                        0 <= i < data@.len() ==> data@[i] == spec_render_byte(cfg, w, h, i),
                decreases width - xx,
            {
                let pt = plane_point(config, width, height, xx, yy);
                let n = Self::calculate_fractal(
                    config.fractal_type,
                    pt.0,
                    pt.1,
                    config.iterations,
                    config.complexity_milli,
                );
                let col = Self::get_color(
                    &config.color_scheme,
                    n,
                    config.iterations,
                    xx,
                    yy,
                    width,
                    height,
                );
                data.push(col[0]);
                data.push(col[1]);
                data.push(col[2]);
                proof {
                    let pos = (yy as int) * w + xx as int;
                    let base = 3 * pos;
                    vstd::arithmetic::div_mod::lemma_fundamental_div_mod_converse(
                        pos,
                        w,
                        yy as int,
                        xx as int,
                    );
                    vstd::arithmetic::div_mod::lemma_fundamental_div_mod_converse(
                        base,
                        3,
                        pos,
                        0,
                    );
                    vstd::arithmetic::div_mod::lemma_fundamental_div_mod_converse(
                        base + 1,
                        3,
                        pos,
                        1,
                    );
                    vstd::arithmetic::div_mod::lemma_fundamental_div_mod_converse(
                        base + 2,
                        3,
                        pos,
                        2,
                    );
                    assert(data@[base] == spec_render_byte(cfg, w, h, base));
                    assert(data@[base + 1] == spec_render_byte(cfg, w, h, base + 1));
                    assert(data@[base + 2] == spec_render_byte(cfg, w, h, base + 2));
                }
                xx = xx + 1;
            }
            yy = yy + 1;
            proof {
                assert((yy as int) * w == (yy as int - 1) * w + w) by (nonlinear_arith);
            }
        }
        proof {
            assert(3 * ((height as int) * w) == (3 * w * h) as int) by (nonlinear_arith)
                requires
                    w == width as int,
                    h == height as int,
            ;
            assert(data@ =~= spec_render_data(cfg, w, h));
        }
        PixelGrid { width, height, data }
    }
}

/// Rendering is deterministic: any two grids that satisfy the rasterizer's
/// contract for the same parameter set and dimensions hold identical bytes.
pub proof fn lemma_render_deterministic(
    g1: PixelGrid,
    g2: PixelGrid,
    c: FractalConfig,
    w: int,
    h: int,
)
    requires
        is_render_of(g1, c, w, h),
        is_render_of(g2, c, w, h),
    ensures
        g1.width == g2.width,
        g1.height == g2.height,
        g1.data@ == g2.data@,
{
}

/// The origin of the complex plane never escapes under the Mandelbrot
/// recurrence: its escape count always equals the full iteration budget.
pub proof fn lemma_mandelbrot_origin_never_escapes(fuel: nat)
    ensures
        spec_escape(FractalType::Mandelbrot, 0, 0, 0, 0, 0, 0, fuel) == fuel,
    decreases fuel,
{
    if fuel > 0 {
        assert(spec_step_x(FractalType::Mandelbrot, 0, 0, 0, 0, 0) == 0);
        assert(spec_step_y(FractalType::Mandelbrot, 0, 0, 0) == 0);
        lemma_mandelbrot_origin_never_escapes((fuel - 1) as nat);
    }
}

/// Mandelbrot fixed point: with both offsets zero the plane origin maps
/// to the center pixel, whatever the zoom, and that pixel's escape count
/// is the full iteration cap — the rasterizer paints it black.
pub proof fn lemma_mandelbrot_center_pixel(c: FractalConfig, w: int, h: int)
    requires
        c.wf(),
        c.fractal_type == FractalType::Mandelbrot,
        c.offset_x_milli == 0,
        c.offset_y_milli == 0,
        1 <= w,
        1 <= h,
    ensures
        spec_plane_re(c, w, h, w / 2, h / 2) == 0,
        spec_plane_im(c, w, h, w / 2, h / 2) == 0,
        spec_variant_iters(
            c.fractal_type,
            0,
            0,
            c.iterations as nat,
            c.complexity_milli as int,
        ) == c.iterations,
        spec_render_pixel(c, w, h, w / 2, h / 2) == (0u8, 0u8, 0u8),
{
    let den = spec_min_dim(w, h) * c.zoom_milli;
    assert(den >= 500) by (nonlinear_arith)
        requires
            den == spec_min_dim(w, h) * c.zoom_milli,
            spec_min_dim(w, h) >= 1,
            c.zoom_milli >= 500,
    ;
    vstd::arithmetic::div_mod::lemma_fundamental_div_mod_converse(0, den, 0, 0);
    assert((w / 2 - w / 2) * 4_000_000 == 0);
    assert(tdiv(0, den) == 0);
    assert(spec_plane_re0(c, w, h, w / 2) == 0);
    assert(spec_plane_im0(c, w, h, h / 2) == 0);
    if c.rotation_milli != 0 {
        vstd::arithmetic::div_mod::lemma_fundamental_div_mod_converse(0, 1000, 0, 0);
        assert(0int * spec_cos_milli(c.rotation_milli as int) == 0);
        assert(0int * spec_sin_milli(c.rotation_milli as int) == 0);
    }
    lemma_mandelbrot_origin_never_escapes(c.iterations as nat);
}

} // verus!
