//! Turning the rasterized keyboard face into the bytes of the shared buffer:
//! decoding it to RGBA and rewriting the marker color as translucent grey.
use vstd::prelude::*;
use crate::surface::BufferSpec;

verus! {

/// The value of every channel of a rewritten marker pixel.
pub const TRANSLUCENT_GREY: u8 = 50;

/// The RGBA bytes, four per pixel, of the PNG image `png`; `None` where it
/// does not decode.
pub uninterp spec fn decoded_png(png: Seq<u8>) -> Option<Seq<u8>>;

/// Relies on image::load_from_memory_with_format (PNG) and
/// DynamicImage::to_rgba8: the result is a function of the bytes alone, and an
/// RGBA buffer holds four bytes per pixel.
#[verifier::external_body]
fn decode_png_rgba(png: &Vec<u8>) -> (r: Option<Vec<u8>>)
    ensures
        match r {
            Some(v) => decoded_png(png@) == Some(v@) && v@.len() % 4 == 0,
            None => decoded_png(png@) is None,
        },
{
    match image::load_from_memory_with_format(png, image::ImageFormat::Png) {
        Ok(img) => Some(img.to_rgba8().into_raw()),
        Err(_) => None,
    }
}

/// Channel `k` of pixel `p` in packed four-byte pixels.
pub open spec fn channel(s: Seq<u8>, p: int, k: int) -> u8 {
    s[4 * p + k]
}

/// A pixel whose red, green and blue are all 255, whatever its alpha.
pub open spec fn is_marker(s: Seq<u8>, p: int) -> bool {
    channel(s, p, 0) == 255 && channel(s, p, 1) == 255 && channel(s, p, 2) == 255
}

/// `dst` is `src` with every marker pixel replaced by (50, 50, 50, 50) and
/// every other pixel kept.
pub open spec fn remapped(src: Seq<u8>, dst: Seq<u8>) -> bool {
    &&& dst.len() == src.len()
    &&& forall|p: int, k: int|
        0 <= p < src.len() / 4 && 0 <= k < 4 ==> #[trigger] channel(dst, p, k) == if is_marker(
            src,
            p,
        ) {
            TRANSLUCENT_GREY
        } else {
            channel(src, p, k)
        }
}

/// Rewrites marker pixels of an RGBA buffer as translucent grey.
pub fn remap_pixels(rgba: &Vec<u8>) -> (r: Vec<u8>)
    requires
        rgba@.len() % 4 == 0,
    ensures
        remapped(rgba@, r@),
{
    let n = rgba.len();
    let mut out: Vec<u8> = Vec::with_capacity(n);
    let mut i: usize = 0;
    let ghost mut np: int = 0;
    while i < n
        invariant
            n == rgba@.len(),
            n % 4 == 0,
            i == 4 * np,
            i <= n,
            out@.len() == i,
            forall|p: int, k: int|
                0 <= p < np && 0 <= k < 4 ==> #[trigger] channel(out@, p, k) == if is_marker(
                    rgba@,
                    p,
                ) {
                    TRANSLUCENT_GREY
                } else {
                    channel(rgba@, p, k)
                },
        decreases n - i,
    {
        let ghost before = out@;
        let r = rgba[i];
        let g = rgba[i + 1];
        let b = rgba[i + 2];
        let a = rgba[i + 3];
        if r == 255 && g == 255 && b == 255 {
            out.push(TRANSLUCENT_GREY);
            out.push(TRANSLUCENT_GREY);
            out.push(TRANSLUCENT_GREY);
            out.push(TRANSLUCENT_GREY);
        } else {
            out.push(r);
            out.push(g);
            out.push(b);
            out.push(a);
        }
        proof {
            assert forall|p: int, k: int| 0 <= p < np + 1 && 0 <= k < 4 implies #[trigger] channel(
                out@,
                p,
                k,
            ) == if is_marker(rgba@, p) {
                TRANSLUCENT_GREY
            } else {
                channel(rgba@, p, k)
            } by {
                if p < np {
                    assert(channel(before, p, k) == channel(out@, p, k));
                }
            }
            np = np + 1;
        }
        i = i + 4;
    }
    out
}

/// Why a face could not become a buffer.
#[derive(Clone, Copy, Debug, PartialEq, Eq, Structural)]
pub enum RenderError {
    /// The face is not a PNG image.
    Undecodable,
    /// The face's pixel bytes differ in number from the buffer's pool.
    SizeMismatch,
}

/// The bytes of the shared buffer for a face rasterized as PNG: decoded to
/// RGBA, sized exactly as the buffer, marker pixels made translucent grey.
pub fn render_frame(png: &Vec<u8>, buffer: &BufferSpec) -> (r: Result<Vec<u8>, RenderError>)
    ensures
        match decoded_png(png@) {
            None => r == Err::<Vec<u8>, RenderError>(RenderError::Undecodable),
            Some(d) => if d.len() != buffer.pool_size as int {
                r == Err::<Vec<u8>, RenderError>(RenderError::SizeMismatch)
            } else {
                r matches Ok(v) && remapped(d, v@)
            },
        },
        r matches Ok(v) ==> v@.len() % 4 == 0,
{
    match decode_png_rgba(png) {
        None => Err(RenderError::Undecodable),
        Some(rgba) => {
            if buffer.pool_size < 0 || rgba.len() != buffer.pool_size as usize {
                Err(RenderError::SizeMismatch)
            } else {
                Ok(remap_pixels(&rgba))
            }
        },
    }
}

/// The rewriting is a function: the same pixels always give the same bytes.
pub proof fn lemma_remap_deterministic(src: Seq<u8>, a: Seq<u8>, b: Seq<u8>)
    requires
        src.len() % 4 == 0,
        remapped(src, a),
        remapped(src, b),
    ensures
        a == b,
{
    assert forall|i: int| 0 <= i < a.len() implies a[i] == b[i] by {
        let p = i / 4;
        let k = i % 4;
        assert(4 * p + k == i);
        assert(0 <= p < src.len() / 4);
        assert(channel(a, p, k) == channel(b, p, k));
    }
    assert(a =~= b);
}

/// Rendering is pure: two buffers that `render_frame` produced from the same
/// face for the same pool are byte-identical.
pub proof fn lemma_render_deterministic(png: Seq<u8>, pool_size: int, a: Seq<u8>, b: Seq<u8>)
    requires
        decoded_png(png) matches Some(d) && d.len() == pool_size && remapped(d, a) && remapped(
            d,
            b,
        ),
        a.len() % 4 == 0,
    ensures
        a == b,
{
    let d = decoded_png(png)->Some_0;
    lemma_remap_deterministic(d, a, b);
}

} // verus!
