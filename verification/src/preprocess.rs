use vstd::prelude::*;
use vstd::arithmetic::div_mod::{
    lemma_div_is_ordered, lemma_div_multiples_vanish_fancy, lemma_fundamental_div_mod,
    lemma_multiply_divide_lt,
};
use vstd::arithmetic::mul::lemma_mul_inequality;
use base64::Engine;

verus! {

/// Failure of preparing an image for transport: an empty input buffer, bytes
/// that are not a well-formed raster image, or an encoder failure on the
/// decoded pixels (unexpected; treated as fatal).
#[derive(PartialEq, Eq, Structural, Clone, Copy, Debug)]
pub enum PreprocessError {
    EmptyInput,
    DecodeError,
    EncodeError,
}

/// What decoding a byte buffer to 8-bit RGB yields: `None` when the bytes are
/// not a well-formed raster image, else the width, height and row-major RGB
/// samples. Decoding is a function of the bytes alone.
pub uninterp spec fn decoded_rgb(bytes: Seq<u8>) -> Option<(u32, u32, Seq<u8>)>;

/// The RGB samples produced by Lanczos-class resampling of the given samples
/// from `width` x `height` to `new_width` x `new_height`; a function of its
/// arguments alone.
pub uninterp spec fn lanczos_resized(
    pixels: Seq<u8>,
    width: u32,
    height: u32,
    new_width: u32,
    new_height: u32,
) -> Seq<u8>;

/// The JPEG stream encoding the given RGB samples at the given quality; a
/// function of its arguments alone.
pub uninterp spec fn jpeg_encoded(pixels: Seq<u8>, width: u32, height: u32, quality: u8) -> Seq<u8>;

/// The base64 text (standard alphabet, padded) of a byte sequence; a function
/// of the bytes alone.
pub uninterp spec fn base64_std(bytes: Seq<u8>) -> Seq<char>;

/// A decoded picture held as plain values: dimensions plus the row-major
/// 8-bit RGB samples, three per pixel.
struct Raster {
    width: u32,
    height: u32,
    pixels: Vec<u8>,
}

/// Relies on image::load_from_memory, which decodes a buffer in any
/// recognized raster format and errs exactly on malformed bytes, and on
/// DynamicImage::to_rgb8 / ImageBuffer::{dimensions, into_raw} to read the
/// picture out as plain width, height and RGB samples (three per pixel).
#[verifier::external_body]
fn decode_to_rgb(bytes: &Vec<u8>) -> (r: Result<Raster, ()>)
    ensures
        r is Ok <==> decoded_rgb(bytes@) is Some,
        r matches Ok(ras) ==> {
            &&& decoded_rgb(bytes@) == Some((ras.width, ras.height, ras.pixels@))
            &&& ras.pixels@.len() == 3 * (ras.width as int) * (ras.height as int)
        },
{
    match image::load_from_memory(bytes) {
        Ok(img) => {
            let rgb = img.to_rgb8();
            let (width, height) = rgb.dimensions();
            Ok(Raster { width, height, pixels: rgb.into_raw() })
        }
        Err(_) => Err(()),
    }
}

/// Relies on image::RgbImage::from_raw, which accepts a buffer whose length
/// matches the dimensions, and on image::imageops::resize with
/// FilterType::Lanczos3, whose output holds three samples per output pixel
/// computed from the input samples alone. Targets no larger than the source
/// keep the output buffer within the input buffer's length.
#[verifier::external_body]
fn resize_lanczos(src: &Raster, new_width: u32, new_height: u32) -> (r: Raster)
    requires
        src.pixels@.len() == 3 * (src.width as int) * (src.height as int),
        new_width <= src.width,
        new_height <= src.height,
    ensures
        r.width == new_width,
        r.height == new_height,
        r.pixels@ == lanczos_resized(src.pixels@, src.width, src.height, new_width, new_height),
        r.pixels@.len() == 3 * (new_width as int) * (new_height as int),
{
    let buf = image::RgbImage::from_raw(src.width, src.height, src.pixels.clone())
        .expect("buffer length matches the dimensions");
    let out = image::imageops::resize(
        &buf,
        new_width,
        new_height,
        image::imageops::FilterType::Lanczos3,
    );
    Raster { width: new_width, height: new_height, pixels: out.into_raw() }
}

/// Relies on image::codecs::jpeg::JpegEncoder::{new_with_quality, encode}
/// writing to an in-memory cursor: encoding succeeds exactly when both
/// dimensions are in 1..=65535 (writes to a Vec cannot fail), and the bytes
/// produced are a function of the samples, dimensions and quality alone.
#[verifier::external_body]
fn encode_jpeg_rgb(src: &Raster, quality: u8) -> (r: Result<Vec<u8>, ()>)
    requires
        src.pixels@.len() == 3 * (src.width as int) * (src.height as int),
    ensures
        r is Ok <==> (1 <= src.width <= 65535 && 1 <= src.height <= 65535),
        r matches Ok(b) ==> b@ == jpeg_encoded(src.pixels@, src.width, src.height, quality),
{
    let mut buffer: Vec<u8> = Vec::new();
    let mut cursor = std::io::Cursor::new(&mut buffer);
    let mut encoder = image::codecs::jpeg::JpegEncoder::new_with_quality(&mut cursor, quality);
    match encoder.encode(&src.pixels, src.width, src.height, image::ExtendedColorType::Rgb8) {
        Ok(()) => Ok(buffer),
        Err(_) => Err(()),
    }
}

/// Relies on base64::Engine::encode with
/// base64::engine::general_purpose::STANDARD: the standard alphabet with
/// padding, four output characters for every started group of three input
/// bytes, a function of the bytes alone.
#[verifier::external_body]
fn encode_base64(bytes: &Vec<u8>) -> (r: String)
    requires
        4 * ((bytes@.len() + 2) / 3) <= usize::MAX,
    ensures
        r@ == base64_std(bytes@),
        r@.len() == 4 * ((bytes@.len() + 2) / 3),
{
    base64::engine::general_purpose::STANDARD.encode(bytes)
}

/// The larger of an image's width and height.
pub open spec fn longest_edge(width: u32, height: u32) -> u32 {
    if width >= height {
        width
    } else {
        height
    }
}

/// An edge scaled by `max_edge / longest`, rounded half away from zero and
/// clamped to at least one pixel.
pub open spec fn scaled_dim(dim: u32, max_edge: u32, longest: u32) -> int
    recommends
        1 <= longest,
{
    let rounded = ((dim as int) * (max_edge as int) + (longest as int) / 2) / (longest as int);
    if rounded < 1 {
        1
    } else {
        rounded
    }
}

/// Whether the downscale step runs at all: only when the longest edge
/// exceeds the bound (never upscale), on a picture with both edges present.
pub open spec fn needs_resize(width: u32, height: u32, max_edge: u32) -> bool {
    1 <= width && 1 <= height && longest_edge(width, height) > max_edge
}

/// The width the prepared image is encoded at.
pub open spec fn output_width(width: u32, height: u32, max_edge: u32) -> int {
    if needs_resize(width, height, max_edge) {
        scaled_dim(width, max_edge, longest_edge(width, height))
    } else {
        width as int
    }
}

/// The height the prepared image is encoded at.
pub open spec fn output_height(width: u32, height: u32, max_edge: u32) -> int {
    if needs_resize(width, height, max_edge) {
        scaled_dim(height, max_edge, longest_edge(width, height))
    } else {
        height as int
    }
}

/// The JPEG stream `prepare` encodes for a decodable buffer: the decoded
/// samples, downscaled exactly when the longest edge exceeds the bound,
/// encoded at the given quality.
pub open spec fn prepared_jpeg(raw: Seq<u8>, max_edge: u32, quality: u8) -> Seq<u8>
    recommends
        decoded_rgb(raw) is Some,
{
    match decoded_rgb(raw) {
        Some(d) => {
            let w = d.0;
            let h = d.1;
            let px = d.2;
            if needs_resize(w, h, max_edge) {
                let nw = scaled_dim(w, max_edge, longest_edge(w, h)) as u32;
                let nh = scaled_dim(h, max_edge, longest_edge(w, h)) as u32;
                jpeg_encoded(lanczos_resized(px, w, h, nw, nh), nw, nh, quality)
            } else {
                jpeg_encoded(px, w, h, quality)
            }
        },
        None => Seq::empty(),
    }
}

/// Whether the prepared image can actually be encoded and carried: both
/// output dimensions fit the JPEG format (1..=65535) and the base64 text of
/// the stream fits in memory.
pub open spec fn encodable(raw: Seq<u8>, max_edge: u32, quality: u8) -> bool
    recommends
        decoded_rgb(raw) is Some,
{
    &&& 1 <= output_width_of(raw, max_edge) <= 65535
    &&& 1 <= output_height_of(raw, max_edge) <= 65535
    &&& prepared_jpeg(raw, max_edge, quality).len() <= 3 * (usize::MAX as int / 4)
}

/// `output_width` applied to the decoded dimensions of a buffer.
pub open spec fn output_width_of(raw: Seq<u8>, max_edge: u32) -> int
    recommends
        decoded_rgb(raw) is Some,
{
    match decoded_rgb(raw) {
        Some(d) => output_width(d.0, d.1, max_edge),
        None => 0,
    }
}

/// `output_height` applied to the decoded dimensions of a buffer.
pub open spec fn output_height_of(raw: Seq<u8>, max_edge: u32) -> int
    recommends
        decoded_rgb(raw) is Some,
{
    match decoded_rgb(raw) {
        Some(d) => output_height(d.0, d.1, max_edge),
        None => 0,
    }
}

/// A scaled edge is at least one pixel, no longer than the source edge, no
/// longer than the bound, exactly the bound for the longest edge itself, and
/// within one pixel of the exact rational scale `dim * max_edge / longest`.
proof fn lemma_scaled_dim_props(dim: u32, max_edge: u32, longest: u32)
    requires
        1 <= dim,
        1 <= max_edge,
        max_edge < longest,
        dim <= longest,
    ensures
        1 <= scaled_dim(dim, max_edge, longest),
        scaled_dim(dim, max_edge, longest) <= dim,
        scaled_dim(dim, max_edge, longest) <= max_edge,
        dim == longest ==> scaled_dim(dim, max_edge, longest) == max_edge,
        -(longest as int) <= scaled_dim(dim, max_edge, longest) * (longest as int) - (dim as int)
            * (max_edge as int) <= longest as int,
{
    let d = dim as int;
    let me = max_edge as int;
    let lg = longest as int;
    let x = d * me + lg / 2;
    let q = x / lg;
    assert(0 <= lg / 2 < lg) by {
        vstd::arithmetic::div_mod::lemma_div_pos_is_pos(lg, 2);
        vstd::arithmetic::div_mod::lemma_div_is_strictly_smaller(lg, 2);
    }
    assert(d * me <= lg * me) by {
        lemma_mul_inequality(d, lg, me);
    }
    assert(x < lg * (me + 1)) by {
        assert(lg * (me + 1) == lg * me + lg) by (nonlinear_arith);
    }
    assert(q < me + 1) by {
        lemma_multiply_divide_lt(x, lg, me + 1);
    }
    assert(d * me <= d * lg) by {
        lemma_mul_inequality(me, lg, d);
        assert(me * d == d * me && lg * d == d * lg) by (nonlinear_arith);
    }
    assert(x < lg * (d + 1)) by {
        assert(lg * (d + 1) == d * lg + lg) by (nonlinear_arith);
    }
    assert(q < d + 1) by {
        lemma_multiply_divide_lt(x, lg, d + 1);
    }
    if dim == longest {
        assert((lg * me + lg / 2) / lg == me) by {
            lemma_div_multiples_vanish_fancy(me, lg / 2, lg);
        }
        assert(d * me == lg * me) by (nonlinear_arith)
            requires d == lg;
    }
    assert(x == lg * q + x % lg && 0 <= x % lg < lg) by {
        lemma_fundamental_div_mod(x, lg);
    }
    assert(1 <= d * me) by (nonlinear_arith)
        requires 1 <= d && 1 <= me;
    if q < 1 {
        assert(scaled_dim(dim, max_edge, longest) == 1);
        assert(0 <= q) by {
            vstd::arithmetic::div_mod::lemma_div_pos_is_pos(x, lg);
        }
        assert(q == 0);
        assert(lg * 0 == 0) by (nonlinear_arith);
        assert(x < lg);
        assert(d * me <= x);
        assert(-lg <= 1 * lg - d * me <= lg) by (nonlinear_arith)
            requires 1 <= d * me && d * me <= x && x < lg;
    } else {
        assert(scaled_dim(dim, max_edge, longest) == q);
        assert(q * lg == lg * q) by (nonlinear_arith);
        assert(-lg <= q * lg - d * me <= lg);
    }
}

/// Compute the dimensions the downscale step targets: each edge scaled by
/// `max_edge / longest`, rounded, clamped to at least one pixel. The longest
/// edge lands exactly on `max_edge`; no edge grows.
pub fn target_dimensions(width: u32, height: u32, max_edge: u32) -> (r: (u32, u32))
    requires
        1 <= width,
        1 <= height,
        1 <= max_edge,
        max_edge < longest_edge(width, height),
    ensures
        r.0 == scaled_dim(width, max_edge, longest_edge(width, height)),
        r.1 == scaled_dim(height, max_edge, longest_edge(width, height)),
        1 <= r.0 <= width,
        1 <= r.1 <= height,
        r.0 <= max_edge,
        r.1 <= max_edge,
        width >= height ==> r.0 == max_edge,
        height >= width ==> r.1 == max_edge,
{
    let longest: u32 = if width >= height { width } else { height };
    proof {
        lemma_scaled_dim_props(width, max_edge, longest);
        lemma_scaled_dim_props(height, max_edge, longest);
    }
    assert((width as u64) * (max_edge as u64) + (longest as u64) / 2 <= u64::MAX) by (nonlinear_arith)
        requires width <= u32::MAX && max_edge <= u32::MAX && longest <= u32::MAX;
    assert((height as u64) * (max_edge as u64) + (longest as u64) / 2 <= u64::MAX) by (nonlinear_arith)
        requires height <= u32::MAX && max_edge <= u32::MAX && longest <= u32::MAX;
    let nw64: u64 = ((width as u64) * (max_edge as u64) + (longest as u64) / 2) / (longest as u64);
    let nh64: u64 = ((height as u64) * (max_edge as u64) + (longest as u64) / 2) / (longest as u64);
    let nw: u32 = if nw64 < 1 { 1 } else { nw64 as u32 };
    let nh: u32 = if nh64 < 1 { 1 } else { nh64 as u32 };
    (nw, nh)
}

/// A byte count whose padded base64 text still fits in memory.
proof fn lemma_base64_len_fits(len: int)
    requires
        0 <= len,
        len <= 3 * (usize::MAX as int / 4),
    ensures
        4 * ((len + 2) / 3) <= usize::MAX,
{
    let m = usize::MAX as int;
    let k = m / 4;
    assert((len + 2) / 3 <= (3 * k + 2) / 3) by {
        lemma_div_is_ordered(len + 2, 3 * k + 2, 3);
    }
    assert((3 * k + 2) / 3 == k) by {
        lemma_div_multiples_vanish_fancy(k, 2, 3);
    }
    assert(m == 4 * (m / 4) + m % 4 && 0 <= m % 4) by {
        lemma_fundamental_div_mod(m, 4);
    }
}

/// Decode a raw image buffer, bound its resolution to `max_edge` on the
/// longest edge (never upscaling), re-encode it as JPEG at `jpeg_quality`,
/// and hand back the base64 text of the stream. A pure function of its
/// inputs: equal arguments give equal output.
pub fn prepare(raw: &Vec<u8>, max_edge: u32, jpeg_quality: u8) -> (r: Result<
    String,
    PreprocessError,
>)
    requires
        1 <= max_edge,
    ensures
        (r matches Err(PreprocessError::EmptyInput)) <==> raw@.len() == 0,
        (r matches Err(PreprocessError::DecodeError)) <==> (raw@.len() > 0 && decoded_rgb(raw@)
            is None),
        (r matches Err(PreprocessError::EncodeError)) <==> (raw@.len() > 0 && decoded_rgb(raw@)
            is Some && !encodable(raw@, max_edge, jpeg_quality)),
        r is Ok <==> (raw@.len() > 0 && decoded_rgb(raw@) is Some && encodable(
            raw@,
            max_edge,
            jpeg_quality,
        )),
        r matches Ok(s) ==> s@ == base64_std(prepared_jpeg(raw@, max_edge, jpeg_quality)),
{
    if raw.len() == 0 {
        return Err(PreprocessError::EmptyInput);
    }
    let decoded = match decode_to_rgb(raw) {
        Ok(d) => d,
        Err(_) => {
            return Err(PreprocessError::DecodeError);
        },
    };
    let ghost gw = decoded.width;
    let ghost gh = decoded.height;
    let ghost gpx = decoded.pixels@;
    let longest: u32 = if decoded.width >= decoded.height {
        decoded.width
    } else {
        decoded.height
    };
    let frame = if decoded.width >= 1 && decoded.height >= 1 && longest > max_edge {
        let (nw, nh) = target_dimensions(decoded.width, decoded.height, max_edge);
        resize_lanczos(&decoded, nw, nh)
    } else {
        decoded
    };
    proof {
        assert(frame.width == output_width(gw, gh, max_edge));
        assert(frame.height == output_height(gw, gh, max_edge));
        assert(frame.pixels@ == (if needs_resize(gw, gh, max_edge) {
            lanczos_resized(
                gpx,
                gw,
                gh,
                scaled_dim(gw, max_edge, longest_edge(gw, gh)) as u32,
                scaled_dim(gh, max_edge, longest_edge(gw, gh)) as u32,
            )
        } else {
            gpx
        }));
    }
    let jpeg = match encode_jpeg_rgb(&frame, jpeg_quality) {
        Ok(b) => b,
        Err(_) => {
            return Err(PreprocessError::EncodeError);
        },
    };
    assert(jpeg@ == prepared_jpeg(raw@, max_edge, jpeg_quality));
    if jpeg.len() > 3 * (usize::MAX / 4) {
        return Err(PreprocessError::EncodeError);
    }
    proof {
        lemma_base64_len_fits(jpeg@.len() as int);
    }
    Ok(encode_base64(&jpeg))
}

/// No-upscale law: when the longest edge is within the bound, the prepared
/// image keeps the input dimensions exactly.
pub proof fn lemma_no_upscale(width: u32, height: u32, max_edge: u32)
    requires
        longest_edge(width, height) <= max_edge,
    ensures
        output_width(width, height, max_edge) == width,
        output_height(width, height, max_edge) == height,
{
}

/// Downscale law: when the longest edge exceeds the bound, the prepared
/// image's longest edge equals the bound exactly, no edge grows, and each
/// edge lands within one pixel of the exact aspect-preserving scale
/// `edge * max_edge / longest`.
pub proof fn lemma_downscale_bounds(width: u32, height: u32, max_edge: u32)
    requires
        1 <= width,
        1 <= height,
        1 <= max_edge,
        max_edge < longest_edge(width, height),
    ensures
        ({
            let lg = longest_edge(width, height) as int;
            let ow = output_width(width, height, max_edge);
            let oh = output_height(width, height, max_edge);
            &&& 1 <= ow <= max_edge
            &&& 1 <= oh <= max_edge
            &&& ow <= width
            &&& oh <= height
            &&& (if ow >= oh {
                ow
            } else {
                oh
            }) == max_edge
            &&& -lg <= ow * lg - (width as int) * (max_edge as int) <= lg
            &&& -lg <= oh * lg - (height as int) * (max_edge as int) <= lg
        }),
{
    let longest = longest_edge(width, height);
    lemma_scaled_dim_props(width, max_edge, longest);
    lemma_scaled_dim_props(height, max_edge, longest);
}

/// Idempotence law: preparing the same bytes under the same settings pins
/// the same text — the payload is a function of the input bytes, the edge
/// bound and the quality alone, so two runs of `prepare` that both succeed
/// return byte-identical output.
pub proof fn lemma_prepare_deterministic(
    raw: Seq<u8>,
    max_edge: u32,
    quality: u8,
    first: Seq<char>,
    second: Seq<char>,
)
    requires
        first == base64_std(prepared_jpeg(raw, max_edge, quality)),
        second == base64_std(prepared_jpeg(raw, max_edge, quality)),
    ensures
        first == second,
{
}

} // verus!
