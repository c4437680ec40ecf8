//! Rarity classification and the structured per-item metadata record.
//!
//! Scores are carried in thousandths of a point on the 0..=100 scale
//! (100_000 is the cap). The record holds plain values — names, tags and
//! numbers — and leaves display formatting and serialization to the
//! caller.

use vstd::prelude::*;

use crate::fractal::{FractalConfig, FractalType, GradientType};
use crate::optimizer::ImageFormat;

verus! {

/// The five rarity tiers, in ascending rarity.
#[derive(Debug, Clone, Copy, PartialEq, Eq, Structural)]
pub enum RarityTier {
    Common,
    Uncommon,
    Rare,
    Epic,
    Legendary,
}

/// Tier thresholds over the milli-point score: they partition the whole
/// range, so every score lands in exactly one tier.
pub open spec fn spec_tier_from_score(score: int) -> RarityTier {
    if score >= 90_000 {
        RarityTier::Legendary
    } else if score >= 75_000 {
        RarityTier::Epic
    } else if score >= 50_000 {
        RarityTier::Rare
    } else if score >= 25_000 {
        RarityTier::Uncommon
    } else {
        RarityTier::Common
    }
}

pub open spec fn spec_tier_index(t: RarityTier) -> int {
    match t {
        RarityTier::Common => 0,
        RarityTier::Uncommon => 1,
        RarityTier::Rare => 2,
        RarityTier::Epic => 3,
        RarityTier::Legendary => 4,
    }
}

pub open spec fn spec_tier_name(t: RarityTier) -> Seq<char> {
    match t {
        RarityTier::Common => "Common"@,
        RarityTier::Uncommon => "Uncommon"@,
        RarityTier::Rare => "Rare"@,
        RarityTier::Epic => "Epic"@,
        RarityTier::Legendary => "Legendary"@,
    }
}

/// Whole-percent share of the collection each tier is entitled to.
pub open spec fn spec_tier_percent(t: RarityTier) -> int {
    match t {
        RarityTier::Common => 50,
        RarityTier::Uncommon => 30,
        RarityTier::Rare => 15,
        RarityTier::Epic => 4,
        RarityTier::Legendary => 1,
    }
}

/// The tier thresholds are monotonic: a higher score never lands in a
/// lower tier, so the thresholds cannot overlap and every score on the
/// scale falls in exactly one tier.
pub proof fn lemma_tier_monotonic(s1: int, s2: int)
    requires
        s1 <= s2,
    ensures
        spec_tier_index(spec_tier_from_score(s1)) <= spec_tier_index(spec_tier_from_score(s2)),
{
}

/// The five target proportions cover the collection exactly.
pub proof fn lemma_tier_percentages_sum_to_100()
    ensures
        spec_tier_percent(RarityTier::Common) + spec_tier_percent(RarityTier::Uncommon)
            + spec_tier_percent(RarityTier::Rare) + spec_tier_percent(RarityTier::Epic)
            + spec_tier_percent(RarityTier::Legendary) == 100,
{
}

impl RarityTier {
    /// Classify a milli-point score.
    pub fn from_score(score: u32) -> (t: RarityTier)
        ensures
            t == spec_tier_from_score(score as int),
    {
        if score >= 90_000 {
            RarityTier::Legendary
        } else if score >= 75_000 {
            RarityTier::Epic
        } else if score >= 50_000 {
            RarityTier::Rare
        } else if score >= 25_000 {
            RarityTier::Uncommon
        } else {
            RarityTier::Common
        }
    }

    pub fn as_str(&self) -> (s: &'static str)
        ensures
            s@ == spec_tier_name(*self),
    {
        match self {
            RarityTier::Common => "Common",
            RarityTier::Uncommon => "Uncommon",
            RarityTier::Rare => "Rare",
            RarityTier::Epic => "Epic",
            RarityTier::Legendary => "Legendary",
        }
    }

    /// Whole-percent target share of the collection.
    pub fn distribution_percentage(&self) -> (p: u32)
        ensures
            p == spec_tier_percent(*self),
    {
        match self {
            RarityTier::Common => 50,
            RarityTier::Uncommon => 30,
            RarityTier::Rare => 15,
            RarityTier::Epic => 4,
            RarityTier::Legendary => 1,
        }
    }

    /// Position of the tier in ascending-rarity order.
    pub fn index(&self) -> (i: usize)
        ensures
            i == spec_tier_index(*self),
    {
        match self {
            RarityTier::Common => 0,
            RarityTier::Uncommon => 1,
            RarityTier::Rare => 2,
            RarityTier::Epic => 3,
            RarityTier::Legendary => 4,
        }
    }
}

/// The milli-point bonus a color scheme contributes to the rarity score.
pub open spec fn spec_scheme_bonus(name: Seq<char>) -> int {
    if name == "Cosmic Purple"@ {
        5_000
    } else if name == "Ocean Depths"@ {
        5_000
    } else if name == "Fire Storm"@ {
        10_000
    } else if name == "Forest Mystique"@ {
        10_000
    } else if name == "Arctic Aurora"@ {
        15_000
    } else if name == "Sunset Blaze"@ {
        15_000
    } else if name == "Neon Dreams"@ {
        25_000
    } else if name == "Golden Horizon"@ {
        25_000
    } else {
        0
    }
}

/// The rarity score in milli-points: variant base, complexity bonus,
/// high-iteration and extreme-zoom bonuses, and the scheme bonus, capped
/// at 100 points.
pub open spec fn spec_variant_base(ft: FractalType) -> int {
    match ft {
        FractalType::Mandelbrot => 10_000,
        FractalType::Julia => 20_000,
        FractalType::BurningShip => 35_000,
        FractalType::Phoenix => 50_000,
    }
}

pub open spec fn spec_rarity_score(c: FractalConfig) -> int {
    let raw = spec_variant_base(c.fractal_type) + c.complexity_milli * 15 + (if c.iterations > 150 {
        20_000int
    } else {
        0int
    }) + (if c.zoom_milli > 3000 || c.zoom_milli < 700 {
        15_000int
    } else {
        0int
    }) + spec_scheme_bonus(c.color_scheme.name@);
    if raw > 100_000 {
        100_000
    } else {
        raw
    }
}

fn scheme_bonus(name: &String) -> (b: u32)
    ensures
        b == spec_scheme_bonus(name@),
{
    if name.eq(&"Cosmic Purple".to_owned()) {
        5_000
    } else if name.eq(&"Ocean Depths".to_owned()) {
        5_000
    } else if name.eq(&"Fire Storm".to_owned()) {
        10_000
    } else if name.eq(&"Forest Mystique".to_owned()) {
        10_000
    } else if name.eq(&"Arctic Aurora".to_owned()) {
        15_000
    } else if name.eq(&"Sunset Blaze".to_owned()) {
        15_000
    } else if name.eq(&"Neon Dreams".to_owned()) {
        25_000
    } else if name.eq(&"Golden Horizon".to_owned()) {
        25_000
    } else {
        0
    }
}

/// The value carried by one metadata attribute: free text, a number, or a
/// pixel dimension pair the caller formats.
#[derive(Debug)]
pub enum AttributeValue {
    Text(String),
    Number(u32),
    Dimensions(u32, u32),
}

/// One trait entry of an item's metadata record.
#[derive(Debug)]
pub struct Attribute {
    pub trait_type: String,
    pub value: AttributeValue,
    pub display_type: Option<String>,
}

/// Plain technical properties of one committed item.
#[derive(Debug)]
pub struct Properties {
    pub category: String,
    pub creator: String,
    pub generation_method: String,
    pub file_size_bytes: u64,
    pub dimensions: (u32, u32),
    pub rarity_score_milli: u32,
}

/// The structured metadata record for one committed item.
#[derive(Debug)]
pub struct NFTMetadata {
    pub token_id: u32,
    pub attributes: Vec<Attribute>,
    pub properties: Properties,
}

/// An attribute holding plain text under a trait name, with no display
/// hint.
pub open spec fn spec_is_text_attr(a: Attribute, tt: Seq<char>, v: Seq<char>) -> bool {
    &&& a.trait_type@ == tt
    &&& a.value matches AttributeValue::Text(s) && s@ == v
    &&& a.display_type is None
}

pub struct MetadataGenerator;

impl MetadataGenerator {
    pub open spec fn spec_fractal_type_name(ft: FractalType) -> Seq<char> {
        match ft {
            FractalType::Mandelbrot => "Mandelbrot Set"@,
            FractalType::Julia => "Julia Set"@,
            FractalType::BurningShip => "Burning Ship"@,
            FractalType::Phoenix => "Phoenix Fractal"@,
        }
    }

    pub fn fractal_type_name(fractal_type: FractalType) -> (r: String)
        ensures
            r@ == Self::spec_fractal_type_name(fractal_type),
    {
        match fractal_type {
            FractalType::Mandelbrot => "Mandelbrot Set".to_owned(),
            FractalType::Julia => "Julia Set".to_owned(),
            FractalType::BurningShip => "Burning Ship".to_owned(),
            FractalType::Phoenix => "Phoenix Fractal".to_owned(),
        }
    }

    pub open spec fn spec_fractal_type_description(ft: FractalType) -> Seq<char> {
        match ft {
            FractalType::Mandelbrot => "Mandelbrot"@,
            FractalType::Julia => "Julia"@,
            FractalType::BurningShip => "Burning Ship"@,
            FractalType::Phoenix => "Phoenix"@,
        }
    }

    pub fn fractal_type_description(fractal_type: FractalType) -> (r: &'static str)
        ensures
            r@ == Self::spec_fractal_type_description(fractal_type),
    {
        match fractal_type {
            FractalType::Mandelbrot => "Mandelbrot",
            FractalType::Julia => "Julia",
            FractalType::BurningShip => "Burning Ship",
            FractalType::Phoenix => "Phoenix",
        }
    }

    pub open spec fn spec_gradient_type_name(g: GradientType) -> Seq<char> {
        match g {
            GradientType::Linear => "Linear Flow"@,
            GradientType::Radial => "Radial Burst"@,
            GradientType::Spiral => "Spiral Dance"@,
            GradientType::Wave => "Wave Pattern"@,
        }
    }

    pub fn gradient_type_name(gradient_type: GradientType) -> (r: String)
        ensures
            r@ == Self::spec_gradient_type_name(gradient_type),
    {
        match gradient_type {
            GradientType::Linear => "Linear Flow".to_owned(),
            GradientType::Radial => "Radial Burst".to_owned(),
            GradientType::Spiral => "Spiral Dance".to_owned(),
            GradientType::Wave => "Wave Pattern".to_owned(),
        }
    }

    pub open spec fn spec_complexity_description(complexity_milli: int) -> Seq<char> {
        if complexity_milli < 500 {
            "minimal"@
        } else if complexity_milli < 1000 {
            "moderate"@
        } else if complexity_milli < 1500 {
            "high"@
        } else {
            "extreme"@
        }
    }

    pub fn complexity_description(complexity_milli: u32) -> (r: &'static str)
        ensures
            r@ == Self::spec_complexity_description(complexity_milli as int),
    {
        if complexity_milli < 500 {
            "minimal"
        } else if complexity_milli < 1000 {
            "moderate"
        } else if complexity_milli < 1500 {
            "high"
        } else {
            "extreme"
        }
    }

    pub open spec fn spec_complexity_tier(complexity_milli: int) -> Seq<char> {
        if complexity_milli < 300 {
            "Minimal"@
        } else if complexity_milli < 600 {
            "Low"@
        } else if complexity_milli < 1000 {
            "Medium"@
        } else if complexity_milli < 1400 {
            "High"@
        } else if complexity_milli < 1700 {
            "Very High"@
        } else {
            "Extreme"@
        }
    }

    pub fn complexity_tier(complexity_milli: u32) -> (r: String)
        ensures
            r@ == Self::spec_complexity_tier(complexity_milli as int),
    {
        if complexity_milli < 300 {
            "Minimal".to_owned()
        } else if complexity_milli < 600 {
            "Low".to_owned()
        } else if complexity_milli < 1000 {
            "Medium".to_owned()
        } else if complexity_milli < 1400 {
            "High".to_owned()
        } else if complexity_milli < 1700 {
            "Very High".to_owned()
        } else {
            "Extreme".to_owned()
        }
    }

    pub open spec fn spec_zoom_category(zoom_milli: int) -> Seq<char> {
        if zoom_milli < 700 {
            "Wide View"@
        } else if zoom_milli < 1200 {
            "Standard"@
        } else if zoom_milli < 2000 {
            "Close Up"@
        } else if zoom_milli < 3000 {
            "Macro"@
        } else {
            "Ultra Macro"@
        }
    }

    pub fn zoom_category(zoom_milli: u32) -> (r: String)
        ensures
            r@ == Self::spec_zoom_category(zoom_milli as int),
    {
        if zoom_milli < 700 {
            "Wide View".to_owned()
        } else if zoom_milli < 1200 {
            "Standard".to_owned()
        } else if zoom_milli < 2000 {
            "Close Up".to_owned()
        } else if zoom_milli < 3000 {
            "Macro".to_owned()
        } else {
            "Ultra Macro".to_owned()
        }
    }

    /// The rotation reduced to thousandths of a full turn picks the
    /// symmetry label.
    pub open spec fn spec_symmetry_pattern(rotation_milli: int) -> Seq<char> {
        let turn = ((rotation_milli % 6283) * 1000) / 6283;
        if turn < 125 {
            "Aligned"@
        } else if turn < 375 {
            "Quarter Turn"@
        } else if turn < 625 {
            "Half Turn"@
        } else if turn < 875 {
            "Three Quarter"@
        } else {
            "Full Rotation"@
        }
    }

    pub fn symmetry_pattern(rotation_milli: u32) -> (r: String)
        ensures
            r@ == Self::spec_symmetry_pattern(rotation_milli as int),
    {
        let turn: u64 = (((rotation_milli as u64) % 6283) * 1000) / 6283;
        if turn < 125 {
            "Aligned".to_owned()
        } else if turn < 375 {
            "Quarter Turn".to_owned()
        } else if turn < 625 {
            "Half Turn".to_owned()
        } else if turn < 875 {
            "Three Quarter".to_owned()
        } else {
            "Full Rotation".to_owned()
        }
    }

    pub open spec fn spec_file_size_category(size: int) -> Seq<char> {
        if size < 1024 {
            "Ultra Compact"@
        } else if size < 2048 {
            "Compact"@
        } else if size < 3072 {
            "Optimized"@
        } else if size < 4096 {
            "Standard"@
        } else {
            "Maximum"@
        }
    }

    pub fn file_size_category(size: u64) -> (r: String)
        ensures
            r@ == Self::spec_file_size_category(size as int),
    {
        if size < 1024 {
            "Ultra Compact".to_owned()
        } else if size < 2048 {
            "Compact".to_owned()
        } else if size < 3072 {
            "Optimized".to_owned()
        } else if size < 4096 {
            "Standard".to_owned()
        } else {
            "Maximum".to_owned()
        }
    }

    /// The product of iteration cap and complexity picks the energy label
    /// (thresholds in milli-units).
    pub open spec fn spec_energy_level(iterations: int, complexity_milli: int) -> Seq<char> {
        let energy = iterations * complexity_milli;
        if energy < 50_000 {
            "Calm"@
        } else if energy < 100_000 {
            "Gentle"@
        } else if energy < 200_000 {
            "Active"@
        } else if energy < 300_000 {
            "Intense"@
        } else {
            "Explosive"@
        }
    }

    pub fn energy_level(iterations: u32, complexity_milli: u32) -> (r: String)
        requires
            iterations < 200,
            complexity_milli < 2000,
        ensures
            r@ == Self::spec_energy_level(iterations as int, complexity_milli as int),
    {
        proof {
            assert((iterations as int) * (complexity_milli as int) < 400_000)
                by (nonlinear_arith)
                requires
                    iterations < 200,
                    complexity_milli < 2000,
            ;
        }
        let energy: u64 = (iterations as u64) * (complexity_milli as u64);
        if energy < 50_000 {
            "Calm".to_owned()
        } else if energy < 100_000 {
            "Gentle".to_owned()
        } else if energy < 200_000 {
            "Active".to_owned()
        } else if energy < 300_000 {
            "Intense".to_owned()
        } else {
            "Explosive".to_owned()
        }
    }

    /// The product of zoom and complexity picks the depth label
    /// (thresholds in milli-squared units).
    pub open spec fn spec_depth_category(zoom_milli: int, complexity_milli: int) -> Seq<char> {
        let depth = zoom_milli * complexity_milli;
        if depth < 500_000 {
            "Surface"@
        } else if depth < 1_000_000 {
            "Shallow"@
        } else if depth < 2_000_000 {
            "Deep"@
        } else if depth < 4_000_000 {
            "Profound"@
        } else {
            "Infinite"@
        }
    }

    pub fn depth_category(zoom_milli: u32, complexity_milli: u32) -> (r: String)
        requires
            zoom_milli < 4000,
            complexity_milli < 2000,
        ensures
            r@ == Self::spec_depth_category(zoom_milli as int, complexity_milli as int),
    {
        proof {
            assert((zoom_milli as int) * (complexity_milli as int) < 8_000_000)
                by (nonlinear_arith)
                requires
                    zoom_milli < 4000,
                    complexity_milli < 2000,
            ;
        }
        let depth: u64 = (zoom_milli as u64) * (complexity_milli as u64);
        if depth < 500_000 {
            "Surface".to_owned()
        } else if depth < 1_000_000 {
            "Shallow".to_owned()
        } else if depth < 2_000_000 {
            "Deep".to_owned()
        } else if depth < 4_000_000 {
            "Profound".to_owned()
        } else {
            "Infinite".to_owned()
        }
    }

    /// Every trait entry the record owes a committed item, pinned one by
    /// one: the fractal and scheme names, the gradient style, the rarity
    /// label, the derived category labels, and the technical numbers.
    pub open spec fn spec_attributes_ok(
        attrs: Seq<Attribute>,
        c: FractalConfig,
        file_size: int,
        dims: (u32, u32),
        tier: RarityTier,
        format: ImageFormat,
    ) -> bool {
        &&& attrs.len() == 13
        &&& spec_is_text_attr(attrs[0], "Fractal Type"@, Self::spec_fractal_type_name(c.fractal_type))
        &&& spec_is_text_attr(attrs[1], "Color Scheme"@, c.color_scheme.name@)
        &&& spec_is_text_attr(
            attrs[2],
            "Gradient Style"@,
            Self::spec_gradient_type_name(c.color_scheme.gradient_type),
        )
        &&& spec_is_text_attr(attrs[3], "Rarity"@, spec_tier_name(tier))
        &&& spec_is_text_attr(
            attrs[4],
            "Complexity Level"@,
            Self::spec_complexity_tier(c.complexity_milli as int),
        )
        &&& attrs[5].trait_type@ == "Iterations"@
        &&& attrs[5].value matches AttributeValue::Number(n) && n == c.iterations
        &&& attrs[5].display_type matches Some(d) && d@ == "number"@
        &&& spec_is_text_attr(attrs[6], "Zoom Level"@, Self::spec_zoom_category(c.zoom_milli as int))
        &&& spec_is_text_attr(
            attrs[7],
            "Symmetry Pattern"@,
            Self::spec_symmetry_pattern(c.rotation_milli as int),
        )
        &&& spec_is_text_attr(
            attrs[8],
            "File Format"@,
            if format is Png {
                "PNG"@
            } else {
                "JPG"@
            },
        )
        &&& spec_is_text_attr(
            attrs[9],
            "File Size Category"@,
            Self::spec_file_size_category(file_size),
        )
        &&& attrs[10].trait_type@ == "Resolution"@
        &&& attrs[10].value matches AttributeValue::Dimensions(dw, dh) && dw == dims.0 && dh
            == dims.1
        &&& attrs[10].display_type is None
        &&& spec_is_text_attr(
            attrs[11],
            "Energy Level"@,
            Self::spec_energy_level(c.iterations as int, c.complexity_milli as int),
        )
        &&& spec_is_text_attr(
            attrs[12],
            "Visual Depth"@,
            Self::spec_depth_category(c.zoom_milli as int, c.complexity_milli as int),
        )
    }

    /// Build the thirteen trait entries for one committed item.
    pub fn generate_attributes(
        config: &FractalConfig,
        file_size: u64,
        dimensions: (u32, u32),
        rarity_tier: RarityTier,
        format: ImageFormat,
    ) -> (attrs: Vec<Attribute>)
        requires
            config.wf(),
        ensures
            Self::spec_attributes_ok(
                attrs@,
                *config,
                file_size as int,
                dimensions,
                rarity_tier,
                format,
            ),
    {
        let mut attrs: Vec<Attribute> = Vec::new();
        attrs.push(
            Attribute {
                trait_type: "Fractal Type".to_owned(),
                value: AttributeValue::Text(Self::fractal_type_name(config.fractal_type)),
                display_type: None,
            },
        );
        attrs.push(
            Attribute {
                trait_type: "Color Scheme".to_owned(),
                value: AttributeValue::Text(config.color_scheme.name.clone()),
                display_type: None,
            },
        );
        attrs.push(
            Attribute {
                trait_type: "Gradient Style".to_owned(),
                value: AttributeValue::Text(
                    Self::gradient_type_name(config.color_scheme.gradient_type),
                ),
                display_type: None,
            },
        );
        attrs.push(
            Attribute {
                trait_type: "Rarity".to_owned(),
                value: AttributeValue::Text(rarity_tier.as_str().to_owned()),
                display_type: None,
            },
        );
        attrs.push(
            Attribute {
                trait_type: "Complexity Level".to_owned(),
                value: AttributeValue::Text(Self::complexity_tier(config.complexity_milli)),
                display_type: None,
            },
        );
        attrs.push(
            Attribute {
                trait_type: "Iterations".to_owned(),
                value: AttributeValue::Number(config.iterations),
                display_type: Some("number".to_owned()),
            },
        );
        attrs.push(
            Attribute {
                trait_type: "Zoom Level".to_owned(),
                value: AttributeValue::Text(Self::zoom_category(config.zoom_milli)),
                display_type: None,
            },
        );
        attrs.push(
            Attribute {
                trait_type: "Symmetry Pattern".to_owned(),
                value: AttributeValue::Text(Self::symmetry_pattern(config.rotation_milli)),
                display_type: None,
            },
        );
        let format_label: String = match format {
            ImageFormat::Png => "PNG".to_owned(),
            ImageFormat::Jpeg => "JPG".to_owned(),
        };
        attrs.push(
            Attribute {
                trait_type: "File Format".to_owned(),
                value: AttributeValue::Text(format_label),
                display_type: None,
            },
        );
        attrs.push(
            Attribute {
                trait_type: "File Size Category".to_owned(),
                value: AttributeValue::Text(Self::file_size_category(file_size)),
                display_type: None,
            },
        );
        attrs.push(
            Attribute {
                trait_type: "Resolution".to_owned(),
                value: AttributeValue::Dimensions(dimensions.0, dimensions.1),
                display_type: None,
            },
        );
        attrs.push(
            Attribute {
                trait_type: "Energy Level".to_owned(),
                value: AttributeValue::Text(
                    Self::energy_level(config.iterations, config.complexity_milli),
                ),
                display_type: None,
            },
        );
        attrs.push(
            Attribute {
                trait_type: "Visual Depth".to_owned(),
                value: AttributeValue::Text(
                    Self::depth_category(config.zoom_milli, config.complexity_milli),
                ),
                display_type: None,
            },
        );
        attrs
    }

    /// Everything `generate` owes: the token number, the thirteen
    /// pinned attributes for the config's own tier, and the plain
    /// technical properties.
    pub open spec fn spec_generate_ok(
        r: NFTMetadata,
        token_id: u32,
        c: FractalConfig,
        file_size: int,
        dims: (u32, u32),
        format: ImageFormat,
    ) -> bool {
        &&& r.token_id == token_id
        &&& Self::spec_attributes_ok(
            r.attributes@,
            c,
            file_size,
            dims,
            spec_tier_from_score(spec_rarity_score(c)),
            format,
        )
        &&& r.properties.category@ == "Generative Art"@
        &&& r.properties.creator@ == "Fractal Genesis"@
        &&& r.properties.generation_method@ == "Rust Mathematical Engine"@
        &&& r.properties.file_size_bytes == file_size
        &&& r.properties.dimensions == dims
        &&& r.properties.rarity_score_milli == spec_rarity_score(c)
    }

    /// Build the full metadata record for one committed item.
    pub fn generate(
        token_id: u32,
        config: &FractalConfig,
        file_size: u64,
        dimensions: (u32, u32),
        format: ImageFormat,
    ) -> (r: NFTMetadata)
        requires
            config.wf(),
        ensures
            Self::spec_generate_ok(r, token_id, *config, file_size as int, dimensions, format),
    {
        let rarity_score = Self::calculate_rarity_score(config);
        let rarity_tier = RarityTier::from_score(rarity_score);
        let attributes = Self::generate_attributes(
            config,
            file_size,
            dimensions,
            rarity_tier,
            format,
        );
        NFTMetadata {
            token_id,
            attributes,
            properties: Properties {
                category: "Generative Art".to_owned(),
                creator: "Fractal Genesis".to_owned(),
                generation_method: "Rust Mathematical Engine".to_owned(),
                file_size_bytes: file_size,
                dimensions,
                rarity_score_milli: rarity_score,
            },
        }
    }

    /// The rarity score of a parameter set, in milli-points.
    pub fn calculate_rarity_score(config: &FractalConfig) -> (s: u32)
        requires
            config.wf(),
        ensures
            s == spec_rarity_score(*config),
            s <= 100_000,
    {
        let base: u32 = match config.fractal_type {
            FractalType::Mandelbrot => 10_000,
            FractalType::Julia => 20_000,
            FractalType::BurningShip => 35_000,
            FractalType::Phoenix => 50_000,
        };
        let mut score: u32 = base;
        score = score + config.complexity_milli * 15;
        if config.iterations > 150 {
            score = score + 20_000;
        }
        if config.zoom_milli > 3000 || config.zoom_milli < 700 {
            score = score + 15_000;
        }
        score = score + scheme_bonus(&config.color_scheme.name);
        if score > 100_000 {
            100_000
        } else {
            score
        }
    }
}

} // verus!

