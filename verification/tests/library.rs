use fractal_nft::digest::{fingerprint, fingerprint_bytes};
use fractal_nft::fractal::{
    ColorScheme, FractalConfig, FractalGenerator, FractalType, GradientType,
};
use fractal_nft::generator::{NFTGenerator, RarityTracker};
use fractal_nft::metadata::{MetadataGenerator, RarityTier};
use fractal_nft::optimizer::{ImageFormat, ImageOptimizer};

fn scheme(colors: Vec<[u8; 3]>, gradient_type: GradientType) -> ColorScheme {
    ColorScheme {
        name: "Ocean Depths".to_owned(),
        colors,
        gradient_type,
    }
}

fn config(fractal_type: FractalType) -> FractalConfig {
    FractalConfig {
        fractal_type,
        color_scheme: scheme(
            vec![[0, 20, 40], [0, 100, 150], [0, 191, 255], [135, 206, 235]],
            GradientType::Linear,
        ),
        iterations: 80,
        zoom_milli: 1000,
        offset_x_milli: -500,
        offset_y_milli: 250,
        rotation_milli: 0,
        complexity_milli: 900,
    }
}

#[test]
fn render_is_deterministic() {
    let c = config(FractalType::Julia);
    let a = FractalGenerator::generate(&c, 48, 32);
    let b = FractalGenerator::generate(&c, 48, 32);
    assert_eq!(a.width, b.width);
    assert_eq!(a.height, b.height);
    assert_eq!(a.data, b.data);
    assert_eq!(a.data.len(), 3 * 48 * 32);
}

#[test]
fn render_rotated_is_deterministic() {
    let mut c = config(FractalType::Phoenix);
    c.rotation_milli = 1234;
    c.color_scheme.gradient_type = GradientType::Spiral;
    let a = FractalGenerator::generate(&c, 32, 32);
    let b = FractalGenerator::generate(&c, 32, 32);
    assert_eq!(a.data, b.data);
}

#[test]
fn mandelbrot_origin_never_escapes() {
    assert_eq!(FractalGenerator::mandelbrot(0, 0, 100), 100);
    assert_eq!(FractalGenerator::mandelbrot(0, 0, 199), 199);
}

#[test]
fn mandelbrot_far_point_escapes_immediately() {
    // |c| > 2: the very first squared modulus exceeds 4.
    assert_eq!(FractalGenerator::mandelbrot(3000, 3000, 100), 1);
}

#[test]
fn center_pixel_is_black_with_zero_offsets() {
    let mut c = config(FractalType::Mandelbrot);
    c.offset_x_milli = 0;
    c.offset_y_milli = 0;
    c.rotation_milli = 777;
    let g = FractalGenerator::generate(&c, 64, 64);
    let base = 3 * (32 * 64 + 32);
    assert_eq!(&g.data[base..base + 3], &[0, 0, 0]);
}

#[test]
fn gradient_zero_maps_to_first_stop() {
    let s = scheme(vec![[10, 20, 30], [200, 210, 220]], GradientType::Linear);
    // An escape count of zero gives t = 0: exactly the first stop.
    let c = FractalGenerator::get_color(&s, 0, 100, 5, 5, 64, 64);
    assert_eq!(c, [10, 20, 30]);
}

#[test]
fn gradient_saturated_maps_to_last_stop() {
    // Radial mode at a corner pixel scales t well past 1.0, which clamps
    // to the last stop.
    let s = scheme(vec![[10, 20, 30], [200, 210, 220]], GradientType::Radial);
    let c = FractalGenerator::get_color(&s, 99, 100, 99, 99, 100, 100);
    assert_eq!(c, [200, 210, 220]);
}

#[test]
fn capped_escape_count_is_black() {
    let s = scheme(vec![[10, 20, 30], [200, 210, 220]], GradientType::Linear);
    let c = FractalGenerator::get_color(&s, 100, 100, 5, 5, 64, 64);
    assert_eq!(c, [0, 0, 0]);
}

#[test]
fn fingerprint_is_stable_and_32_bytes() {
    let a = config(FractalType::BurningShip);
    let b = config(FractalType::BurningShip);
    let fa = fingerprint(&a);
    let fb = fingerprint(&b);
    assert_eq!(fa.len(), 32);
    assert_eq!(fa, fb);
}

#[test]
fn fingerprint_differs_across_fields() {
    let a = config(FractalType::BurningShip);
    let mut b = config(FractalType::BurningShip);
    b.zoom_milli += 1;
    assert_ne!(fingerprint(&a), fingerprint(&b));
    let mut c = config(FractalType::BurningShip);
    c.fractal_type = FractalType::Julia;
    assert_ne!(fingerprint(&a), fingerprint(&c));
    // The digest is not the serialized bytes handed back.
    assert_ne!(fingerprint(&a), fingerprint_bytes(&a));
}

#[test]
fn rarity_score_exact_value() {
    // Julia base 20.0 + complexity 0.9 * 15 = 13.5 + no iteration bonus
    // + no zoom bonus + Ocean Depths bonus 5.0 = 38.5 points.
    let c = config(FractalType::Julia);
    let g = NFTGenerator::new(64, 5120);
    assert_eq!(g.calculate_rarity_score(&c), 38_500);
}

#[test]
fn rarity_score_is_capped() {
    let mut c = config(FractalType::Phoenix);
    c.color_scheme.name = "Neon Dreams".to_owned();
    c.complexity_milli = 1999;
    c.iterations = 199;
    c.zoom_milli = 3500;
    // 50 + 29.985 + 20 + 15 + 25 = 139.985, capped at 100.
    let g = NFTGenerator::new(64, 5120);
    assert_eq!(g.calculate_rarity_score(&c), 100_000);
}

#[test]
fn tier_thresholds() {
    assert_eq!(RarityTier::from_score(90_000), RarityTier::Legendary);
    assert_eq!(RarityTier::from_score(89_999), RarityTier::Epic);
    assert_eq!(RarityTier::from_score(75_000), RarityTier::Epic);
    assert_eq!(RarityTier::from_score(74_999), RarityTier::Rare);
    assert_eq!(RarityTier::from_score(50_000), RarityTier::Rare);
    assert_eq!(RarityTier::from_score(49_999), RarityTier::Uncommon);
    assert_eq!(RarityTier::from_score(25_000), RarityTier::Uncommon);
    assert_eq!(RarityTier::from_score(24_999), RarityTier::Common);
    assert_eq!(RarityTier::from_score(0), RarityTier::Common);
}

#[test]
fn tier_labels_and_percentages() {
    assert_eq!(RarityTier::Common.as_str(), "Common");
    assert_eq!(RarityTier::Legendary.as_str(), "Legendary");
    let total: u32 = [
        RarityTier::Common,
        RarityTier::Uncommon,
        RarityTier::Rare,
        RarityTier::Epic,
        RarityTier::Legendary,
    ]
    .iter()
    .map(|t| t.distribution_percentage())
    .sum();
    assert_eq!(total, 100);
}

#[test]
fn format_detection_png_signature() {
    let opt = ImageOptimizer::new(5120);
    let mut png = vec![0x89, b'P', b'N', b'G', b'\r', b'\n', 0x1a, b'\n'];
    png.extend_from_slice(&[1, 2, 3]);
    assert_eq!(opt.get_file_extension(&png), "png");
    assert_eq!(opt.get_file_extension(&[0xff, 0xd8, 0xff, 0xe0]), "jpg");
    assert_eq!(opt.get_file_extension(&[]), "jpg");
    // Seven of the eight signature bytes are not enough.
    assert_eq!(
        opt.get_file_extension(&[0x89, b'P', b'N', b'G', b'\r', b'\n', 0x1a]),
        "jpg"
    );
}

#[test]
fn optimizer_small_image_fits_budget_as_png() {
    let c = config(FractalType::Mandelbrot);
    let img = FractalGenerator::generate(&c, 32, 32);
    let opt = ImageOptimizer::new(100_000);
    let art = opt.optimize_to_target_size(&img).unwrap();
    assert!(!art.fallback);
    assert!(art.data.len() <= 100_000);
    assert_eq!(art.format, ImageFormat::Png);
    assert_eq!(&art.data[0..8], b"\x89PNG\r\n\x1a\n");
    assert_eq!((art.width, art.height), (32, 32));
}

#[test]
fn optimizer_impossible_budget_falls_back_to_jpeg() {
    let c = config(FractalType::Julia);
    let img = FractalGenerator::generate(&c, 32, 32);
    let opt = ImageOptimizer::new(10);
    let art = opt.optimize_to_target_size(&img).unwrap();
    assert!(art.fallback);
    assert!(art.data.len() > 10);
    assert_eq!(art.format, ImageFormat::Jpeg);
    // A real JPEG stream: start-of-image marker, not raw pixels.
    assert_eq!(&art.data[0..2], &[0xff, 0xd8]);
    // The fallback keeps the original dimensions.
    assert_eq!((art.width, art.height), (32, 32));
}

#[test]
fn optimizer_downscale_path_respects_floor() {
    // 290 pixels a side admits exactly one downscale step (to 261) before
    // the 256-pixel floor stops the ladder; with a one-byte budget every
    // encoding is rejected and the fallback keeps the original size.
    let c = config(FractalType::Mandelbrot);
    let img = FractalGenerator::generate(&c, 290, 290);
    let opt = ImageOptimizer::new(1);
    let art = opt.optimize_to_target_size(&img).unwrap();
    assert!(art.fallback);
    assert_eq!((art.width, art.height), (290, 290));
    assert_eq!(art.format, ImageFormat::Jpeg);
}

#[test]
fn optimizer_is_deterministic() {
    // The search result is pinned to one spec-level ladder over
    // deterministic codecs: two runs over the same image and budget
    // return identical bytes, dimensions and fallback flag.
    let c = config(FractalType::BurningShip);
    let img = FractalGenerator::generate(&c, 48, 48);
    let opt = ImageOptimizer::new(900);
    let a = opt.optimize_to_target_size(&img).unwrap();
    let b = opt.optimize_to_target_size(&img).unwrap();
    assert_eq!(a.data, b.data);
    assert_eq!((a.width, a.height), (b.width, b.height));
    assert_eq!(a.fallback, b.fallback);
}

#[test]
fn sampler_scheme_comes_from_catalog() {
    let names = [
        "Cosmic Purple",
        "Ocean Depths",
        "Fire Storm",
        "Forest Mystique",
        "Arctic Aurora",
        "Sunset Blaze",
        "Neon Dreams",
        "Golden Horizon",
    ];
    let mut rng = fractal_nft::rng::rng_from_seed(11);
    for _ in 0..16 {
        let c = FractalConfig::random(&mut rng);
        assert!(names.contains(&c.color_scheme.name.as_str()));
        assert_eq!(c.color_scheme.colors.len(), 4);
    }
}

#[test]
fn compression_stats_exact_values() {
    let opt = ImageOptimizer::new(5120);
    // Halving the size saves 50%.
    assert_eq!(opt.calculate_compression_stats(1000, 500), 50_000);
    assert_eq!(opt.calculate_compression_stats(0, 500), 0);
    // Growth reports a negative saving.
    assert_eq!(opt.calculate_compression_stats(500, 1000), -100_000);
    assert_eq!(opt.calculate_compression_stats(3, 2), 33_333);
}

#[test]
fn sampler_respects_ranges() {
    let mut rng = fractal_nft::rng::rng_from_seed(7);
    for _ in 0..20 {
        let c = FractalConfig::random(&mut rng);
        assert!((50..200).contains(&c.iterations));
        assert!((500..4000).contains(&c.zoom_milli));
        assert!((-2000..2000).contains(&c.offset_x_milli));
        assert!((-2000..2000).contains(&c.offset_y_milli));
        assert!(c.rotation_milli < 6283);
        assert!((100..2000).contains(&c.complexity_milli));
        assert!(c.color_scheme.colors.len() >= 2);
    }
}

#[test]
fn catalog_has_eight_schemes() {
    let schemes = FractalConfig::get_color_schemes();
    assert_eq!(schemes.len(), 8);
    assert_eq!(schemes[0].name, "Cosmic Purple");
    assert_eq!(schemes[7].name, "Golden Horizon");
    assert_eq!(schemes[1].colors, vec![
        [0, 20, 40],
        [0, 100, 150],
        [0, 191, 255],
        [135, 206, 235]
    ]);
    for s in &schemes {
        assert_eq!(s.colors.len(), 4);
    }
}

#[test]
fn tracker_targets_and_quotas() {
    let mut t = RarityTracker::new(10);
    let stats = t.get_stats();
    assert_eq!(
        stats.iter().map(|p| p.1).collect::<Vec<u32>>(),
        vec![5, 3, 1, 0, 0]
    );
    assert!(t.should_accept_rarity(RarityTier::Common));
    assert!(!t.should_accept_rarity(RarityTier::Legendary));
    t.increment_rarity(RarityTier::Rare);
    assert!(!t.should_accept_rarity(RarityTier::Rare));
}

#[test]
fn metadata_record_contents() {
    let c = config(FractalType::Julia);
    let m = MetadataGenerator::generate(42, &c, 4321, (64, 64), ImageFormat::Png);
    assert_eq!(m.token_id, 42);
    assert_eq!(m.attributes.len(), 13);
    assert_eq!(m.attributes[0].trait_type, "Fractal Type");
    match &m.attributes[0].value {
        fractal_nft::metadata::AttributeValue::Text(s) => assert_eq!(s, "Julia Set"),
        _ => panic!("fractal type attribute must be text"),
    }
    match &m.attributes[5].value {
        fractal_nft::metadata::AttributeValue::Number(n) => assert_eq!(*n, 80),
        _ => panic!("iterations attribute must be a number"),
    }
    assert_eq!(m.attributes[5].display_type.as_deref(), Some("number"));
    assert_eq!(m.properties.file_size_bytes, 4321);
    assert_eq!(m.properties.rarity_score_milli, 38_500);
    assert_eq!(m.properties.dimensions, (64, 64));
}

#[test]
fn category_labels_exact() {
    assert_eq!(MetadataGenerator::complexity_tier(299), "Minimal");
    assert_eq!(MetadataGenerator::complexity_tier(300), "Low");
    assert_eq!(MetadataGenerator::zoom_category(699), "Wide View");
    assert_eq!(MetadataGenerator::zoom_category(3000), "Ultra Macro");
    assert_eq!(MetadataGenerator::file_size_category(1023), "Ultra Compact");
    assert_eq!(MetadataGenerator::file_size_category(5000), "Maximum");
    assert_eq!(MetadataGenerator::symmetry_pattern(0), "Aligned");
    assert_eq!(MetadataGenerator::symmetry_pattern(3141), "Half Turn");
    assert_eq!(MetadataGenerator::energy_level(80, 900), "Gentle");
    assert_eq!(MetadataGenerator::depth_category(1000, 900), "Shallow");
    assert_eq!(
        MetadataGenerator::fractal_type_description(FractalType::BurningShip),
        "Burning Ship"
    );
    assert_eq!(
        MetadataGenerator::gradient_type_name(GradientType::Wave),
        "Wave Pattern"
    );
}

#[test]
fn collection_run_of_ten_respects_quotas_and_uniqueness() {
    let mut gen = NFTGenerator::new(64, 5120);
    let res = gen.generate_collection(10, 0xfeed_beef);
    // Targets for ten items are {5, 3, 1, 0, 0}: at most nine can ever be
    // committed, so the run must exhaust its hundred attempts.
    assert_eq!(res.requested, 10);
    assert!(res.exhausted);
    assert_eq!(res.attempts, 100);
    assert!(res.items.len() <= 9);
    // Committed fingerprints are pairwise distinct.
    for i in 0..res.items.len() {
        for j in 0..i {
            assert_ne!(res.items[i].fingerprint, res.items[j].fingerprint);
        }
    }
    // Token numbers are strictly increasing from one.
    for (i, item) in res.items.iter().enumerate() {
        assert_eq!(item.token_id as usize, i + 1);
    }
    // Per-tier counts never exceed the targets.
    let targets = [5u32, 3, 1, 0, 0];
    for (i, &target) in targets.iter().enumerate() {
        let got = res
            .items
            .iter()
            .filter(|it| it.tier.index() == i)
            .count() as u32;
        assert!(got <= target);
        assert_eq!(res.summary.tier_counts[i], got);
    }
    assert_eq!(res.summary.total_generated as usize, res.items.len());
    // Budget guarantee for every non-fallback artifact.
    for item in &res.items {
        if !item.artifact.fallback {
            assert!(item.artifact.data.len() as u64 <= 5120);
        }
        assert_eq!(item.metadata.token_id, item.token_id);
    }
}

#[test]
fn seed_derivation_matches_wrapping_arithmetic() {
    assert_eq!(
        NFTGenerator::generate_unique_seed(3, 4),
        3u64.wrapping_mul(31).wrapping_add(4)
    );
    assert_eq!(
        NFTGenerator::generate_unique_seed(u64::MAX, 9),
        u64::MAX.wrapping_mul(31).wrapping_add(9)
    );
}
