//! Duplicate-detection fingerprints.
//!
//! A parameter set is serialized into a canonical byte string — variant
//! tag, scheme name, gradient tag, gradient stops, and every numeric knob
//! in thousandths — and digested with SHA-256. Because the knobs are
//! already quantized to thousandths, two parameter sets that would differ
//! only below three decimal places are the same value here and collide by
//! design.

use vstd::prelude::*;

use sha2::Digest;

use crate::fractal::{FractalConfig, FractalType, GradientType};

verus! {

/// The SHA-256 digest of a byte string, named but not defined: the
/// trusted wrapper below is the only thing that speaks for it.
pub uninterp spec fn sha256_of(bytes: Seq<u8>) -> Seq<u8>;

/// Relies on sha2::Sha256 via Digest::digest: the SHA-256 digest is 32
/// bytes and a function of the input bytes alone.
#[verifier::external_body]
fn sha256(bytes: &Vec<u8>) -> (r: Vec<u8>)
    ensures
        r@ == sha256_of(bytes@),
        r@.len() == 32,
{
    sha2::Sha256::digest(bytes.as_slice()).to_vec()
}

pub open spec fn spec_variant_tag(ft: FractalType) -> u8 {
    match ft {
        FractalType::Mandelbrot => 0u8,
        FractalType::Julia => 1u8,
        FractalType::BurningShip => 2u8,
        FractalType::Phoenix => 3u8,
    }
}

pub open spec fn spec_gradient_tag(g: GradientType) -> u8 {
    match g {
        GradientType::Linear => 0u8,
        GradientType::Radial => 1u8,
        GradientType::Spiral => 2u8,
        GradientType::Wave => 3u8,
    }
}

/// A `u32` as four little-endian bytes.
pub open spec fn spec_u32_le(n: u32) -> Seq<u8> {
    seq![
        (n & 0xff) as u8,
        ((n >> 8) & 0xff) as u8,
        ((n >> 16) & 0xff) as u8,
        ((n >> 24) & 0xff) as u8,
    ]
}

/// The gradient stops flattened to bytes, three per stop.
pub open spec fn spec_colors_bytes(cs: Seq<[u8; 3]>) -> Seq<u8>
    decreases cs.len(),
{
    if cs.len() == 0 {
        Seq::empty()
    } else {
        spec_colors_bytes(cs.drop_last()) + seq![cs.last()[0], cs.last()[1], cs.last()[2]]
    }
}

/// The canonical byte string a parameter set is digested over. Offsets
/// are shifted by 2.0 so every field is nonnegative.
pub open spec fn spec_config_bytes(c: FractalConfig) -> Seq<u8> {
    seq![spec_variant_tag(c.fractal_type)] + vstd::utf8::encode_utf8(c.color_scheme.name@) + seq![
        spec_gradient_tag(c.color_scheme.gradient_type),
        c.color_scheme.colors@.len() as u8,
    ] + spec_colors_bytes(c.color_scheme.colors@) + spec_u32_le(c.iterations) + spec_u32_le(
        c.zoom_milli,
    ) + spec_u32_le((c.offset_x_milli + 2000) as u32) + spec_u32_le(
        (c.offset_y_milli + 2000) as u32,
    ) + spec_u32_le(c.rotation_milli) + spec_u32_le(c.complexity_milli)
}

/// The digest that identifies a parameter set.
pub open spec fn spec_fingerprint(c: FractalConfig) -> Seq<u8> {
    sha256_of(spec_config_bytes(c))
}

fn push_u32_le(out: &mut Vec<u8>, n: u32)
    ensures
        final(out)@ == old(out)@ + spec_u32_le(n),
{
    proof {
        assert(n & 0xff < 256 && (n >> 8) & 0xff < 256 && (n >> 16) & 0xff < 256 && (n >> 24)
            & 0xff < 256) by (bit_vector);
    }
    out.push((n & 0xff) as u8);
    out.push(((n >> 8) & 0xff) as u8);
    out.push(((n >> 16) & 0xff) as u8);
    out.push(((n >> 24) & 0xff) as u8);
    proof {
        assert(out@ =~= old(out)@ + spec_u32_le(n));
    }
}

fn push_colors(out: &mut Vec<u8>, colors: &Vec<[u8; 3]>)
    ensures
        final(out)@ == old(out)@ + spec_colors_bytes(colors@),
{
    let ghost prefix = out@;
    let mut i: usize = 0;
    while i < colors.len()
        invariant
            i <= colors@.len(),
            out@ == prefix + spec_colors_bytes(colors@.take(i as int)),
        decreases colors@.len() - i,
    {
        let c = colors[i];
        out.push(c[0]);
        out.push(c[1]);
        out.push(c[2]);
        proof {
            let taken = colors@.take(i as int + 1);
            assert(taken.drop_last() =~= colors@.take(i as int));
            assert(taken.last() == colors@[i as int]);
            assert(spec_colors_bytes(taken) == spec_colors_bytes(colors@.take(i as int)) + seq![
                c[0],
                c[1],
                c[2],
            ]);
            assert(out@ =~= prefix + spec_colors_bytes(taken));
        }
        i = i + 1;
    }
    proof {
        assert(colors@.take(colors@.len() as int) =~= colors@);
    }
}

/// Serialize a parameter set into its canonical digest input.
pub fn fingerprint_bytes(config: &FractalConfig) -> (r: Vec<u8>)
    requires
        config.wf(),
    ensures
        r@ == spec_config_bytes(*config),
{
    let mut out: Vec<u8> = Vec::new();
    let tag: u8 = match config.fractal_type {
        FractalType::Mandelbrot => 0,
        FractalType::Julia => 1,
        FractalType::BurningShip => 2,
        FractalType::Phoenix => 3,
    };
    out.push(tag);
    let mut name_bytes = vstd::string::StrSliceExecFns::as_bytes_vec(config.color_scheme.name.as_str());
    out.append(&mut name_bytes);
    let gtag: u8 = match config.color_scheme.gradient_type {
        GradientType::Linear => 0,
        GradientType::Radial => 1,
        GradientType::Spiral => 2,
        GradientType::Wave => 3,
    };
    out.push(gtag);
    out.push(config.color_scheme.colors.len() as u8);
    push_colors(&mut out, &config.color_scheme.colors);
    push_u32_le(&mut out, config.iterations);
    push_u32_le(&mut out, config.zoom_milli);
    push_u32_le(&mut out, (config.offset_x_milli + 2000) as u32);
    push_u32_le(&mut out, (config.offset_y_milli + 2000) as u32);
    push_u32_le(&mut out, config.rotation_milli);
    push_u32_le(&mut out, config.complexity_milli);
    proof {
        assert(out@ =~= spec_config_bytes(*config));
    }
    out
}

/// Digest a parameter set for duplicate detection.
pub fn fingerprint(config: &FractalConfig) -> (r: Vec<u8>)
    requires
        config.wf(),
    ensures
        r@ == spec_fingerprint(*config),
        r@.len() == 32,
{
    let bytes = fingerprint_bytes(config);
    sha256(&bytes)
}

/// Fingerprint stability: the digest is a function of the parameter
/// values alone, so two parameter sets whose fields agree — and, the
/// knobs being quantized to thousandths, any two that could differ only
/// below three decimal places — carry the same fingerprint.
pub proof fn lemma_fingerprint_stable(a: FractalConfig, b: FractalConfig)
    requires
        a.fractal_type == b.fractal_type,
        a.color_scheme.name@ == b.color_scheme.name@,
        a.color_scheme.colors@ == b.color_scheme.colors@,
        a.color_scheme.gradient_type == b.color_scheme.gradient_type,
        a.iterations == b.iterations,
        a.zoom_milli == b.zoom_milli,
        a.offset_x_milli == b.offset_x_milli,
        a.offset_y_milli == b.offset_y_milli,
        a.rotation_milli == b.rotation_milli,
        a.complexity_milli == b.complexity_milli,
    ensures
        spec_fingerprint(a) == spec_fingerprint(b),
{
    assert(spec_config_bytes(a) == spec_config_bytes(b));
}

} // verus!
