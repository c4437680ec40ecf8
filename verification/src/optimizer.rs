//! The size-constrained encoder search.
//!
//! Given a rendered grid and a byte budget, the search tries lossless PNG
//! at maximum effort, then a descending JPEG quality ladder, then the same
//! at progressively downscaled resolutions (never below 256 pixels a
//! side), and as a last resort re-encodes the original at the lowest JPEG
//! quality — the only path whose output may exceed the budget, and the
//! contract flags it. The codecs are deterministic functions of their
//! arguments, reached through trusted wrappers around the image crate and
//! named below; the whole search result is pinned to a spec-level model
//! of that ladder, so two searches over the same image and budget return
//! the same bytes.

use vstd::prelude::*;

use crate::fixed::tdiv;
use crate::fractal::PixelGrid;

verus! {

/// The two encodings the search can produce.
#[derive(Debug, Clone, Copy, PartialEq, Eq, Structural)]
pub enum ImageFormat {
    Png,
    Jpeg,
}

/// The canonical eight-byte PNG signature opens the buffer.
pub open spec fn spec_is_png(data: Seq<u8>) -> bool {
    &&& data.len() >= 8
    &&& data[0] == 137u8
    &&& data[1] == 80u8
    &&& data[2] == 78u8
    &&& data[3] == 71u8
    &&& data[4] == 13u8
    &&& data[5] == 10u8
    &&& data[6] == 26u8
    &&& data[7] == 10u8
}

/// Format detection: the PNG signature identifies PNG, anything else is
/// treated as JPEG.
pub open spec fn spec_detect_format(data: Seq<u8>) -> ImageFormat {
    if spec_is_png(data) {
        ImageFormat::Png
    } else {
        ImageFormat::Jpeg
    }
}

/// The codec itself failed. The wrappers below promise success on every
/// admitted input, so no verified path produces this value; the type
/// keeps the taxonomy's shape for callers.
#[derive(Debug, Clone, Copy, PartialEq, Eq, Structural)]
pub struct EncodeError;

/// One encoded image: its bytes, the detected format, its final pixel
/// dimensions, and whether it came from the unconditional fallback step.
#[derive(Debug)]
pub struct Artifact {
    pub data: Vec<u8>,
    pub format: ImageFormat,
    pub width: u32,
    pub height: u32,
    pub fallback: bool,
}

impl Artifact {
    pub open spec fn wf(&self) -> bool {
        self.format == spec_detect_format(self.data@)
    }

    /// The achieved byte size.
    pub fn byte_len(&self) -> (n: usize)
        ensures
            n == self.data@.len(),
    {
        self.data.len()
    }
}

/// The PNG stream the codec emits for an RGB8 buffer at best compression
/// with adaptive filtering: a function of the dimensions and pixels alone.
pub uninterp spec fn png_of(w: int, h: int, data: Seq<u8>) -> Seq<u8>;

/// The JPEG stream the codec emits for an RGB8 buffer at a given quality:
/// a function of the dimensions, pixels and quality alone.
pub uninterp spec fn jpeg_of(w: int, h: int, data: Seq<u8>, quality: int) -> Seq<u8>;

/// The RGB8 buffer the Lanczos3 resampler produces for given source and
/// target dimensions: a function of its arguments alone.
pub uninterp spec fn resized_of(w: int, h: int, data: Seq<u8>, new_w: int, new_h: int) -> Seq<u8>;

/// Relies on image::codecs::png::PngEncoder via ImageEncoder::write_image,
/// at best compression with adaptive filtering. On nonzero dimensions and
/// an exactly sized RGB8 buffer, writing into an in-memory buffer, the
/// codec has no reachable failure path (its errors are zero dimensions,
/// an invalid color combination, a wrong buffer length, and I/O — all
/// excluded here), and its output depends on the arguments alone.
#[verifier::external_body]
fn png_encode_rgb(width: u32, height: u32, data: &Vec<u8>) -> (r: Result<Vec<u8>, EncodeError>)
    requires
        data@.len() == 3 * width * height,
        1 <= width <= 4096,
        1 <= height <= 4096,
    ensures
        r is Ok,
        r matches Ok(b) ==> b@ == png_of(width as int, height as int, data@),
{
    let mut buf: Vec<u8> = Vec::new();
    let enc = image::codecs::png::PngEncoder::new_with_quality(
        std::io::Cursor::new(&mut buf),
        image::codecs::png::CompressionType::Best,
        image::codecs::png::FilterType::Adaptive,
    );
    match image::ImageEncoder::write_image(enc, data, width, height, image::ColorType::Rgb8) {
        Ok(()) => Ok(buf),
        Err(_) => Err(EncodeError),
    }
}

/// Relies on image::codecs::jpeg::JpegEncoder::encode at the given
/// quality (1..=100, clamped internally). It panics on a buffer whose
/// length does not match the dimensions, which the precondition rules
/// out; its only error returns are dimensions over 65535 (excluded) and
/// I/O, which an in-memory buffer cannot raise. The output depends on the
/// arguments alone.
#[verifier::external_body]
fn jpeg_encode_rgb(width: u32, height: u32, data: &Vec<u8>, quality: u8) -> (r: Result<
    Vec<u8>,
    EncodeError,
>)
    requires
        data@.len() == 3 * width * height,
        1 <= width <= 4096,
        1 <= height <= 4096,
        1 <= quality <= 100,
    ensures
        r is Ok,
        r matches Ok(b) ==> b@ == jpeg_of(width as int, height as int, data@, quality as int),
{
    let mut buf: Vec<u8> = Vec::new();
    let mut enc = image::codecs::jpeg::JpegEncoder::new_with_quality(
        std::io::Cursor::new(&mut buf),
        quality,
    );
    match enc.encode(data, width, height, image::ColorType::Rgb8) {
        Ok(()) => Ok(buf),
        Err(_) => Err(EncodeError),
    }
}

/// Relies on image::imageops::resize with the Lanczos3 filter: resamples
/// an RGB8 buffer to exactly the requested dimensions; the output depends
/// on the arguments alone.
#[verifier::external_body]
fn resize_rgb(width: u32, height: u32, data: &Vec<u8>, new_w: u32, new_h: u32) -> (r: Vec<u8>)
    requires
        data@.len() == 3 * width * height,
        1 <= width <= 4096,
        1 <= height <= 4096,
        1 <= new_w <= 4096,
        1 <= new_h <= 4096,
    ensures
        r@ == resized_of(width as int, height as int, data@, new_w as int, new_h as int),
        r@.len() == 3 * new_w * new_h,
{
    let img: image::RgbImage = image::ImageBuffer::from_raw(width, height, data.clone()).unwrap();
    let out = image::imageops::resize(&img, new_w, new_h, image::imageops::FilterType::Lanczos3);
    out.into_raw()
}

fn detect_format(data: &Vec<u8>) -> (f: ImageFormat)
    ensures
        f == spec_detect_format(data@),
{
    if data.len() >= 8 && data[0] == 137 && data[1] == 80 && data[2] == 78 && data[3] == 71
        && data[4] == 13 && data[5] == 10 && data[6] == 26 && data[7] == 10 {
        ImageFormat::Png
    } else {
        ImageFormat::Jpeg
    }
}

/// The five downscale factors, in thousandths, in search order.
pub open spec fn spec_scale_at(i: int) -> int {
    if i == 0 {
        900
    } else if i == 1 {
        800
    } else if i == 2 {
        700
    } else if i == 3 {
        600
    } else {
        500
    }
}

/// First fit on the full-resolution JPEG quality ladder, descending from
/// `q` to 60 in steps of 5.
pub open spec fn spec_jpeg_ladder_fine(
    w: int,
    h: int,
    data: Seq<u8>,
    budget: int,
    q: int,
) -> Option<Seq<u8>>
    decreases q,
{
    if q < 60 {
        None
    } else if jpeg_of(w, h, data, q).len() <= budget {
        Some(jpeg_of(w, h, data, q))
    } else {
        spec_jpeg_ladder_fine(w, h, data, budget, q - 5)
    }
}

/// First fit on the downscaled JPEG quality ladder, descending from `q`
/// to 50 in steps of 10.
pub open spec fn spec_jpeg_ladder_coarse(
    w: int,
    h: int,
    data: Seq<u8>,
    budget: int,
    q: int,
) -> Option<Seq<u8>>
    decreases q,
{
    if q < 50 {
        None
    } else if jpeg_of(w, h, data, q).len() <= budget {
        Some(jpeg_of(w, h, data, q))
    } else {
        spec_jpeg_ladder_coarse(w, h, data, budget, q - 10)
    }
}

/// First fit across the downscale ladder from scale index `i` on: at each
/// scale, PNG first, then the coarse JPEG ladder. The scan stops — it
/// does not skip ahead — at the first scale that would drop a dimension
/// below 256 pixels.
pub open spec fn spec_scale_scan(w: int, h: int, data: Seq<u8>, budget: int, i: int) -> Option<
    (Seq<u8>, int, int),
>
    decreases 5 - i,
{
    if i >= 5 {
        None
    } else {
        let nw = (w * spec_scale_at(i)) / 1000;
        let nh = (h * spec_scale_at(i)) / 1000;
        if nw < 256 || nh < 256 {
            None
        } else {
            let rdata = resized_of(w, h, data, nw, nh);
            if png_of(nw, nh, rdata).len() <= budget {
                Some((png_of(nw, nh, rdata), nw, nh))
            } else {
                match spec_jpeg_ladder_coarse(nw, nh, rdata, budget, 90) {
                    Some(b) => Some((b, nw, nh)),
                    None => spec_scale_scan(w, h, data, budget, i + 1),
                }
            }
        }
    }
}

/// The whole documented search, as (bytes, width, height, fallback):
/// full-size PNG if it fits, else the fine JPEG ladder, else the scale
/// scan, else the unconditional quality-30 fallback at full size.
pub open spec fn spec_encode_search(w: int, h: int, data: Seq<u8>, budget: int) -> (
    Seq<u8>,
    int,
    int,
    bool,
) {
    if png_of(w, h, data).len() <= budget {
        (png_of(w, h, data), w, h, false)
    } else {
        match spec_jpeg_ladder_fine(w, h, data, budget, 95) {
            Some(b) => (b, w, h, false),
            None => match spec_scale_scan(w, h, data, budget, 0) {
                Some(p) => (p.0, p.1, p.2, false),
                None => (jpeg_of(w, h, data, 30), w, h, true),
            },
        }
    }
}

/// Compression saving in milli-percent: `(1 - compressed/original) * 100`,
/// scaled by 1000 and rounded toward zero.
pub open spec fn spec_compression_stats(original: int, compressed: int) -> int {
    if original == 0 {
        0
    } else {
        tdiv((original - compressed) * 100_000, original)
    }
}

pub struct ImageOptimizer {
    pub max_file_size: u64,
}

impl ImageOptimizer {
    pub fn new(max_file_size: u64) -> (r: Self)
        ensures
            r.max_file_size == max_file_size,
    {
        ImageOptimizer { max_file_size }
    }

    /// Identify an encoded buffer by its leading bytes: the PNG signature
    /// means "png", anything else "jpg".
    pub fn get_file_extension(&self, data: &[u8]) -> (ext: &'static str)
        ensures
            spec_is_png(data@) ==> ext@ == "png"@,
            !spec_is_png(data@) ==> ext@ == "jpg"@,
    {
        if data.len() >= 8 && data[0] == 137 && data[1] == 80 && data[2] == 78 && data[3] == 71
            && data[4] == 13 && data[5] == 10 && data[6] == 26 && data[7] == 10 {
            "png"
        } else {
            "jpg"
        }
    }

    /// Search the codec/quality/resolution space for an encoding at or
    /// under the byte budget. The search always succeeds and its result
    /// is exactly the spec-level ladder: every path but the flagged
    /// fallback returns bytes within budget, the fallback keeps the
    /// original dimensions, downscaled results never drop below 256
    /// pixels a side, and the format tag matches the leading bytes. The
    /// 4096-pixel ceiling is a machine limit of the crate's exact
    /// fixed-point model, not a constraint from the search itself.
    pub fn optimize_to_target_size(&self, img: &PixelGrid) -> (r: Result<Artifact, EncodeError>)
        requires
            img.wf(),
            1 <= img.width <= 4096,
            1 <= img.height <= 4096,
        ensures
            r matches Ok(a) && ({
                let e = spec_encode_search(
                    img.width as int,
                    img.height as int,
                    img.data@,
                    self.max_file_size as int,
                );
                &&& a.data@ == e.0
                &&& a.width == e.1
                &&& a.height == e.2
                &&& a.fallback == e.3
                &&& a.wf()
                &&& !a.fallback ==> a.data@.len() <= self.max_file_size
                &&& a.fallback ==> a.width == img.width && a.height == img.height
                &&& a.width <= img.width && a.height <= img.height
                &&& (a.width == img.width && a.height == img.height) || (a.width >= 256
                    && a.height >= 256)
            }),
    {
        let w = img.width;
        let h = img.height;
        let png = match png_encode_rgb(w, h, &img.data) {
            Ok(b) => b,
            Err(e) => {
                return Err(e);
            },
        };
        if png.len() as u64 <= self.max_file_size {
            let format = detect_format(&png);
            return Ok(Artifact { data: png, format, width: w, height: h, fallback: false });
        }
        let mut q: u8 = 95;
        while q >= 60
            invariant
                img.wf(),
                1 <= w <= 4096,
                1 <= h <= 4096,
                w == img.width,
                h == img.height,
                q <= 95,
                png_of(w as int, h as int, img.data@).len() > self.max_file_size,
                spec_jpeg_ladder_fine(
                    w as int,
                    h as int,
                    img.data@,
                    self.max_file_size as int,
                    95,
                ) == spec_jpeg_ladder_fine(
                    w as int,
                    h as int,
                    img.data@,
                    self.max_file_size as int,
                    q as int,
                ),
            decreases q,
        {
            let jpeg = match jpeg_encode_rgb(w, h, &img.data, q) {
                Ok(b) => b,
                Err(e) => {
                    return Err(e);
                },
            };
            if jpeg.len() as u64 <= self.max_file_size {
                let format = detect_format(&jpeg);
                return Ok(Artifact { data: jpeg, format, width: w, height: h, fallback: false });
            }
            q = q - 5;
        }
        let mut si: usize = 0;
        while si < 5
            invariant
                img.wf(),
                1 <= w <= 4096,
                1 <= h <= 4096,
                w == img.width,
                h == img.height,
                si <= 5,
                png_of(w as int, h as int, img.data@).len() > self.max_file_size,
                spec_jpeg_ladder_fine(
                    w as int,
                    h as int,
                    img.data@,
                    self.max_file_size as int,
                    95,
                ) is None,
                spec_scale_scan(w as int, h as int, img.data@, self.max_file_size as int, 0)
                    == spec_scale_scan(
                    w as int,
                    h as int,
                    img.data@,
                    self.max_file_size as int,
                    si as int,
                ),
            decreases 5 - si,
        {
            let scale: u32 = match si {
                0 => 900,
                1 => 800,
                2 => 700,
                3 => 600,
                _ => 500,
            };
            proof {
                assert(scale as int == spec_scale_at(si as int));
                assert(w as u64 * scale as u64 <= 4_096_000 && h as u64 * scale as u64
                    <= 4_096_000) by (nonlinear_arith)
                    requires
                        w <= 4096,
                        h <= 4096,
                        scale <= 1000,
                ;
            }
            let new_w: u32 = ((w as u64 * scale as u64) / 1000) as u32;
            let new_h: u32 = ((h as u64 * scale as u64) / 1000) as u32;
            proof {
                assert((w as int) * (scale as int) <= (w as int) * 1000 && (h as int) * (
                scale as int) <= (h as int) * 1000 && 0 <= (w as int) * (scale as int) && 0 <= (
                h as int) * (scale as int)) by (nonlinear_arith)
                    requires
                        scale <= 1000,
                        w >= 1,
                        h >= 1,
                ;
                vstd::arithmetic::div_mod::lemma_div_is_ordered(
                    (w as int) * (scale as int),
                    (w as int) * 1000,
                    1000,
                );
                vstd::arithmetic::div_mod::lemma_div_is_ordered(
                    (h as int) * (scale as int),
                    (h as int) * 1000,
                    1000,
                );
                vstd::arithmetic::div_mod::lemma_fundamental_div_mod_converse(
                    (w as int) * 1000,
                    1000,
                    w as int,
                    0,
                );
                vstd::arithmetic::div_mod::lemma_fundamental_div_mod_converse(
                    (h as int) * 1000,
                    1000,
                    h as int,
                    0,
                );
            }
            if new_w < 256 || new_h < 256 {
                proof {
                    assert(spec_scale_scan(
                        w as int,
                        h as int,
                        img.data@,
                        self.max_file_size as int,
                        si as int,
                    ) is None);
                }
                si = 5;
            } else {
                let resized = resize_rgb(w, h, &img.data, new_w, new_h);
                let png2 = match png_encode_rgb(new_w, new_h, &resized) {
                    Ok(b) => b,
                    Err(e) => {
                        return Err(e);
                    },
                };
                if png2.len() as u64 <= self.max_file_size {
                    let format = detect_format(&png2);
                    return Ok(
                        Artifact {
                            data: png2,
                            format,
                            width: new_w,
                            height: new_h,
                            fallback: false,
                        },
                    );
                }
                let mut jq: u8 = 90;
                while jq >= 50
                    invariant
                        img.wf(),
                        1 <= w <= 4096,
                        1 <= h <= 4096,
                        w == img.width,
                        h == img.height,
                        si < 5,
                        jq <= 90,
                        png_of(w as int, h as int, img.data@).len() > self.max_file_size,
                        spec_jpeg_ladder_fine(
                            w as int,
                            h as int,
                            img.data@,
                            self.max_file_size as int,
                            95,
                        ) is None,
                        spec_scale_scan(
                            w as int,
                            h as int,
                            img.data@,
                            self.max_file_size as int,
                            0,
                        ) == spec_scale_scan(
                            w as int,
                            h as int,
                            img.data@,
                            self.max_file_size as int,
                            si as int,
                        ),
                        new_w as int == ((w as int) * spec_scale_at(si as int)) / 1000,
                        new_h as int == ((h as int) * spec_scale_at(si as int)) / 1000,
                        256 <= new_w <= 4096,
                        256 <= new_h <= 4096,
                        new_w <= w,
                        new_h <= h,
                        resized@ == resized_of(
                            w as int,
                            h as int,
                            img.data@,
                            new_w as int,
                            new_h as int,
                        ),
                        resized@.len() == 3 * new_w * new_h,
                        png_of(new_w as int, new_h as int, resized@).len()
                            > self.max_file_size,
                        spec_jpeg_ladder_coarse(
                            new_w as int,
                            new_h as int,
                            resized@,
                            self.max_file_size as int,
                            90,
                        ) == spec_jpeg_ladder_coarse(
                            new_w as int,
                            new_h as int,
                            resized@,
                            self.max_file_size as int,
                            jq as int,
                        ),
                    decreases jq,
                {
                    let jpeg2 = match jpeg_encode_rgb(new_w, new_h, &resized, jq) {
                        Ok(b) => b,
                        Err(e) => {
                            return Err(e);
                        },
                    };
                    if jpeg2.len() as u64 <= self.max_file_size {
                        let format = detect_format(&jpeg2);
                        return Ok(
                            Artifact {
                                data: jpeg2,
                                format,
                                width: new_w,
                                height: new_h,
                                fallback: false,
                            },
                        );
                    }
                    jq = jq - 10;
                }
                si = si + 1;
            }
        }
        let jpeg = match jpeg_encode_rgb(w, h, &img.data, 30) {
            Ok(b) => b,
            Err(e) => {
                return Err(e);
            },
        };
        let format = detect_format(&jpeg);
        Ok(Artifact { data: jpeg, format, width: w, height: h, fallback: true })
    }

    /// Compression saving in milli-percent, rounded toward zero.
    pub fn calculate_compression_stats(&self, original_size: usize, compressed_size: usize) -> (r:
        i64)
        requires
            compressed_size <= 1_000_000_000_000,
        ensures
            r == spec_compression_stats(original_size as int, compressed_size as int),
    {
        if original_size == 0 {
            return 0;
        }
        let diff: i128 = original_size as i128 - compressed_size as i128;
        let num: i128 = diff * 100_000;
        if num >= 0 {
            proof {
                vstd::arithmetic::div_mod::lemma_fundamental_div_mod(
                    num as int,
                    original_size as int,
                );
                assert((num as int) / (original_size as int) <= 100_000) by (nonlinear_arith)
                    requires
                        original_size > 0,
                        num <= 100_000 * (original_size as int),
                        num as int == (original_size as int) * ((num as int) / (
                        original_size as int)) + (num as int) % (original_size as int),
                        0 <= (num as int) % (original_size as int),
                ;
                assert(num <= 100_000 * (original_size as int)) by (nonlinear_arith)
                    requires
                        num == (original_size as int - compressed_size as int) * 100_000,
                        compressed_size >= 0,
                ;
            }
            let quot: u128 = (num as u128) / (original_size as u128);
            quot as i64
        } else {
            let mag: u128 = (-num) as u128;
            proof {
                vstd::arithmetic::div_mod::lemma_fundamental_div_mod(
                    mag as int,
                    original_size as int,
                );
                assert((mag as int) / (original_size as int) <= mag as int) by (nonlinear_arith)
                    requires
                        original_size >= 1,
                        mag as int == (original_size as int) * ((mag as int) / (
                        original_size as int)) + (mag as int) % (original_size as int),
                        0 <= (mag as int) % (original_size as int),
                ;
            }
            let quot: u128 = mag / (original_size as u128);
            -(quot as i64)
        }
    }
}

/// The outcome record the original pipeline hands to its callers: the
/// encoded bytes beside the sizes and the saving they represent.
#[derive(Debug)]
pub struct OptimizationResult {
    pub data: Vec<u8>,
    pub format: String,
    pub original_size: usize,
    pub compressed_size: usize,
    pub compression_ratio_milli: i64,
    pub dimensions: (u32, u32),
}

impl OptimizationResult {
    pub fn new(
        data: Vec<u8>,
        format: String,
        original_size: usize,
        dimensions: (u32, u32),
        optimizer: &ImageOptimizer,
    ) -> (r: OptimizationResult)
        requires
            data@.len() <= 1_000_000_000_000,
        ensures
            r.data@ == data@,
            r.format@ == format@,
            r.original_size == original_size,
            r.compressed_size == data@.len(),
            r.compression_ratio_milli == spec_compression_stats(
                original_size as int,
                data@.len() as int,
            ),
            r.dimensions == dimensions,
    {
        let compressed_size = data.len();
        let compression_ratio_milli = optimizer.calculate_compression_stats(
            original_size,
            compressed_size,
        );
        OptimizationResult {
            data,
            format,
            original_size,
            compressed_size,
            compression_ratio_milli,
            dimensions,
        }
    }
}

} // verus!
